//! The remediation target identity: the user the repaired trees are to
//! belong to.

use vstd::prelude::*;

verus! {

/// What the platform reported when asked who is running the process.
#[derive(Debug)]
pub enum UsernameLookup {
    /// The platform supplied the user's name as text.
    Found(String),
    /// The platform had no identity for the invoking user.
    Unavailable,
    /// The platform supplied a name that is not valid text.
    NotText,
}

/// Why no remediation target user could be determined.
#[derive(Debug)]
pub enum IdentityFault {
    /// The platform had no identity for the invoking user.
    Unavailable,
    /// The user's name could not be represented as text.
    NotText,
    /// The platform supplied an empty name, which names no user.
    EmptyName,
}

/// The remediation target user.  Always holds a non-empty printable name;
/// a lookup that cannot supply one is rejected before any path is touched.
#[derive(Debug)]
pub struct Identity {
    name: String,
}

impl Identity {
    pub closed spec fn spec_name(self) -> Seq<char> {
        self.name@
    }

    pub open spec fn wf(self) -> bool {
        self.spec_name().len() > 0
    }

    /// Turns a platform lookup into the remediation target identity.
    /// A lookup that yields no name, a non-textual name, or an empty name
    /// is an identity fault, and remediation never starts from one.
    pub fn resolve(lookup: UsernameLookup) -> (r: Result<Identity, IdentityFault>)
        ensures
            match lookup {
                UsernameLookup::Found(name) => if name@.len() > 0 {
                    r matches Ok(id) && id.spec_name() == name@ && id.wf()
                } else {
                    r == Err::<Identity, IdentityFault>(IdentityFault::EmptyName)
                },
                UsernameLookup::Unavailable => r == Err::<Identity, IdentityFault>(
                    IdentityFault::Unavailable,
                ),
                UsernameLookup::NotText => r == Err::<Identity, IdentityFault>(
                    IdentityFault::NotText,
                ),
            },
    {
        match lookup {
            UsernameLookup::Found(name) => {
                if name.as_str().is_empty() {
                    Err(IdentityFault::EmptyName)
                } else {
                    Ok(Identity { name })
                }
            },
            UsernameLookup::Unavailable => Err(IdentityFault::Unavailable),
            UsernameLookup::NotText => Err(IdentityFault::NotText),
        }
    }

    /// Resolves the identity of the user running the process, as the
    /// platform reports it.
    pub fn resolve_current() -> (r: Result<Identity, IdentityFault>)
        ensures
            r matches Ok(id) ==> id.wf(),
    {
        Identity::resolve(current_username_lookup())
    }

    /// The user's name, the argument the ownership repair hands to the
    /// host.
    pub fn name(&self) -> (r: &String)
        ensures
            r@ == self.spec_name(),
    {
        &self.name
    }
}

/// Relies on users::get_current_username for the name of the user running
/// the process, read from the platform's user database, and on std's
/// OsString::into_string to tell a name that is valid text from one that is
/// not.  The answer depends on the machine's state at the call, so nothing
/// is promised of which variant comes back.
#[verifier::external_body]
pub(crate) fn current_username_lookup() -> (r: UsernameLookup) {
    match users::get_current_username() {
        None => UsernameLookup::Unavailable,
        Some(name) => match name.into_string() {
            Ok(text) => UsernameLookup::Found(text),
            Err(_) => UsernameLookup::NotText,
        },
    }
}

} // verus!
