//! The remediation run: the fail-fast loop that orders the sub-operations
//! and decides what each reported outcome means.

use vstd::prelude::*;

use crate::identity::current_username_lookup;
use crate::identity::Identity;
use crate::identity::IdentityFault;
use crate::identity::UsernameLookup;
use crate::listing::views_of;
use crate::listing::ProblemPath;
use crate::plan::lemma_path_fully_remediated;
use crate::plan::lemma_plan_len;
use crate::plan::plan_of;
use crate::plan::PlanStep;
use crate::plan::StepKind;

verus! {

/// How the host reported one sub-operation's run ending.
#[derive(Clone, Copy, Debug, PartialEq, Eq, Structural)]
pub enum StepOutcome {
    /// The command exited with this code.  Zero is success; anything else
    /// means the step was refused.
    Exited(i32),
    /// The command was terminated without an exit code (by a signal).
    Signalled,
    /// The command could not be launched at all.
    LaunchFailed,
}

/// Why a remediation run failed.  Every failure is terminal for the run:
/// nothing is retried, and no later path is processed.
#[derive(Debug)]
pub enum RemediationError {
    /// The problem source could not be queried; carries its message.
    Listing(String),
    /// The remediation target user could not be determined.
    Identity(IdentityFault),
    /// A required sub-operation failed: which one, on which path, and how
    /// its run ended.
    Execution { kind: StepKind, path: ProblemPath, outcome: StepOutcome },
}

/// A remediation run in progress: the target identity, the listed paths,
/// and how far the plan has been carried out.  The host performs one
/// sub-operation at a time and records its outcome; the first failure
/// latches and ends the run.
pub struct RemediationRun {
    user: Identity,
    paths: Vec<ProblemPath>,
    next_path: usize,
    next_sub: usize,
    failed: bool,
}

impl RemediationRun {
    /// The name of the remediation target user.
    pub closed spec fn spec_user(self) -> Seq<char> {
        self.user.spec_name()
    }

    /// The listed paths, in the order they are processed.
    pub closed spec fn spec_paths(self) -> Seq<Seq<u8>> {
        views_of(self.paths@)
    }

    /// How many sub-operations have completed: the position of the next
    /// action in the plan.
    pub closed spec fn spec_pos(self) -> int {
        3 * self.next_path + self.next_sub
    }

    /// Whether a sub-operation has failed; a failed run refuses further
    /// steps.
    pub closed spec fn has_failed(self) -> bool {
        self.failed
    }

    /// The actions this run carries out, in order.
    pub open spec fn plan(self) -> Seq<PlanStep> {
        plan_of(self.spec_paths())
    }

    pub closed spec fn wf(self) -> bool {
        &&& self.user.wf()
        &&& self.next_path <= self.paths@.len()
        &&& self.next_sub < 3
        &&& (self.next_path == self.paths@.len() ==> self.next_sub == 0)
    }

    /// Whether every planned action has completed.
    pub open spec fn spec_complete(self) -> bool {
        self.spec_pos() == 3 * self.spec_paths().len()
    }

    /// Starts a run over the listed paths for the given target user, with
    /// nothing done yet.
    pub fn new(user: Identity, paths: Vec<ProblemPath>) -> (r: Self)
        requires
            user.wf(),
        ensures
            r.wf(),
            !r.has_failed(),
            r.spec_pos() == 0,
            r.spec_paths() == views_of(paths@),
            r.spec_user() == user.spec_name(),
    {
        RemediationRun { user, paths, next_path: 0, next_sub: 0, failed: false }
    }

    pub fn is_complete(&self) -> (r: bool)
        requires
            self.wf(),
        ensures
            r == self.spec_complete(),
    {
        self.next_path == self.paths.len()
    }

    /// The name every ownership repair of this run hands to the host.
    pub fn username(&self) -> (r: &String)
        ensures
            r@ == self.spec_user(),
    {
        self.user.name()
    }

    /// The next action: which sub-operation to perform, and on which path.
    pub fn current(&self) -> (r: (StepKind, &ProblemPath))
        requires
            self.wf(),
            !self.spec_complete(),
            !self.has_failed(),
        ensures
            r.0 == self.plan()[self.spec_pos()].kind,
            r.1@ == self.plan()[self.spec_pos()].path,
    {
        proof {
            lemma_path_fully_remediated(self.spec_paths(), self.next_path as int);
        }
        let kind = if self.next_sub == 0 {
            StepKind::ChangeOwner
        } else if self.next_sub == 1 {
            StepKind::StripGroupWrite
        } else {
            StepKind::StripOtherWrite
        };
        (kind, &self.paths[self.next_path])
    }

    /// Records what the host reported for the current action.  Success
    /// moves the run to the next action; anything else fails the whole run,
    /// right here, naming the action that failed.  Paths already processed
    /// stay as they are: there is no rollback.
    pub fn record(&mut self, outcome: StepOutcome) -> (r: Result<(), RemediationError>)
        requires
            old(self).wf(),
            !old(self).spec_complete(),
            !old(self).has_failed(),
        ensures
            final(self).wf(),
            final(self).spec_paths() == old(self).spec_paths(),
            final(self).spec_user() == old(self).spec_user(),
            outcome == StepOutcome::Exited(0i32) ==> r == Ok::<(), RemediationError>(())
                && !final(self).has_failed() && final(self).spec_pos() == old(self).spec_pos() + 1,
            outcome != StepOutcome::Exited(0i32) ==> final(self).has_failed()
                && final(self).spec_pos() == old(self).spec_pos()
                && (r matches Err(RemediationError::Execution { kind, path, outcome: reported })
                    && kind == old(self).plan()[old(self).spec_pos()].kind
                    && path@ == old(self).plan()[old(self).spec_pos()].path
                    && reported == outcome),
    {
        proof {
            assert(self.spec_paths().len() == self.paths@.len());
            if self.next_path == self.paths@.len() {
                assert(self.spec_pos() == 3 * self.spec_paths().len());
                assert(false);
            }
            lemma_path_fully_remediated(self.spec_paths(), self.next_path as int);
        }
        let count: usize = self.paths.len();
        let succeeded = match outcome {
            StepOutcome::Exited(code) => code == 0,
            _ => false,
        };
        if succeeded {
            proof {
                assert(self.next_path < count);
            }
            if self.next_sub == 2 {
                self.next_sub = 0;
                self.next_path = self.next_path + 1;
            } else {
                self.next_sub = self.next_sub + 1;
            }
            Ok(())
        } else {
            let kind = if self.next_sub == 0 {
                StepKind::ChangeOwner
            } else if self.next_sub == 1 {
                StepKind::StripGroupWrite
            } else {
                StepKind::StripOtherWrite
            };
            let path = self.paths[self.next_path].clone();
            self.failed = true;
            Err(RemediationError::Execution { kind, path, outcome })
        }
    }
}

/// Starts a remediation run from what the problem source reported and what
/// the platform reported for the invoking user.  The listing is consulted
/// first: its failure is returned untouched and nothing else happens.  The
/// target identity is then resolved once for the whole run, before any path
/// is touched and even when the listing is empty, so a run never begins
/// with a stale or undetermined identity.
pub fn begin_remediation(listing: Result<Vec<ProblemPath>, String>, lookup: UsernameLookup) -> (r:
    Result<RemediationRun, RemediationError>)
    ensures
        match listing {
            Err(m) => r matches Err(RemediationError::Listing(reported)) && reported == m,
            Ok(paths) => match lookup {
                UsernameLookup::Found(name) => if name@.len() > 0 {
                    r matches Ok(run) && run.wf() && !run.has_failed() && run.spec_pos() == 0
                        && run.spec_paths() == views_of(paths@) && run.spec_user() == name@
                } else {
                    r matches Err(RemediationError::Identity(IdentityFault::EmptyName))
                },
                UsernameLookup::Unavailable => r matches Err(
                    RemediationError::Identity(IdentityFault::Unavailable),
                ),
                UsernameLookup::NotText => r matches Err(
                    RemediationError::Identity(IdentityFault::NotText),
                ),
            },
        },
{
    match listing {
        Err(m) => Err(RemediationError::Listing(m)),
        Ok(paths) => match Identity::resolve(lookup) {
            Err(fault) => Err(RemediationError::Identity(fault)),
            Ok(user) => Ok(RemediationRun::new(user, paths)),
        },
    }
}

/// As `begin_remediation`, with the target identity resolved from the
/// platform for the user running the process.  Which identity the platform
/// reports depends on the machine, so all that is promised of a successful
/// listing is that the run either starts cleanly or fails as an identity
/// fault.
pub fn begin_remediation_as_current_user(listing: Result<Vec<ProblemPath>, String>) -> (r: Result<
    RemediationRun,
    RemediationError,
>)
    ensures
        match listing {
            Err(m) => r matches Err(RemediationError::Listing(reported)) && reported == m,
            Ok(paths) => match r {
                Ok(run) => run.wf() && !run.has_failed() && run.spec_pos() == 0 && run.spec_paths()
                    == views_of(paths@),
                Err(e) => e matches RemediationError::Identity(_),
            },
        },
{
    begin_remediation(listing, current_username_lookup())
}

/// Whether the first `n` reported outcomes all succeeded.
pub open spec fn all_successful(outcomes: Seq<StepOutcome>, n: int) -> bool {
    forall|q: int| 0 <= q < n ==> outcomes[q] == StepOutcome::Exited(0i32)
}

/// Plays a whole remediation run forward: `outcomes[q]` is what the host
/// reported for the plan's action at position `q`.  The run succeeds only
/// when every planned action succeeded; the first reported failure ends it
/// with the action it struck, and no action past that position is
/// consulted, so no later path is processed.
#[verifier::loop_isolation(false)]
pub fn run_remediation(
    listing: Result<Vec<ProblemPath>, String>,
    lookup: UsernameLookup,
    outcomes: &Vec<StepOutcome>,
) -> (r: Result<(), RemediationError>)
    requires
        listing matches Ok(paths) ==> outcomes@.len() >= 3 * paths@.len(),
    ensures
        match listing {
            Err(m) => r matches Err(RemediationError::Listing(reported)) && reported == m,
            Ok(paths) => match lookup {
                UsernameLookup::Found(name) => if name@.len() > 0 {
                    scripted_outcome_holds(views_of(paths@), outcomes@, r)
                } else {
                    r matches Err(RemediationError::Identity(IdentityFault::EmptyName))
                },
                UsernameLookup::Unavailable => r matches Err(
                    RemediationError::Identity(IdentityFault::Unavailable),
                ),
                UsernameLookup::NotText => r matches Err(
                    RemediationError::Identity(IdentityFault::NotText),
                ),
            },
        },
{
    let mut run = match begin_remediation(listing, lookup) {
        Err(e) => {
            return Err(e);
        },
        Ok(run) => run,
    };
    let ghost pviews = run.spec_paths();
    proof {
        lemma_plan_len(pviews);
    }
    let total: usize = outcomes.len();
    let mut done: usize = 0;
    loop
        invariant
            run.wf(),
            !run.has_failed(),
            run.spec_paths() == pviews,
            run.spec_pos() == done,
            done <= 3 * pviews.len(),
            outcomes@.len() >= 3 * pviews.len(),
            all_successful(outcomes@, done as int),
        decreases 3 * pviews.len() - done,
    {
        if run.is_complete() {
            proof {
                assert(all_successful(outcomes@, 3 * pviews.len() as int));
            }
            return Ok(());
        }
        proof {
            assert(done < 3 * pviews.len());
            assert(done < total);
        }
        let outcome = outcomes[done];
        match run.record(outcome) {
            Ok(()) => {
                done = done + 1;
            },
            Err(e) => {
                proof {
                    let p = done as int;
                    assert(0 <= p < 3 * pviews.len() && outcomes@[p] != StepOutcome::Exited(0i32)
                        && all_successful(outcomes@, p));
                }
                return Err(e);
            },
        }
    }
}

/// What `run_remediation` reports once the listing and the identity are
/// both in hand: success exactly when every planned action succeeded, and
/// otherwise the failure of the first action whose outcome was not a clean
/// exit.
pub open spec fn scripted_outcome_holds(
    pviews: Seq<Seq<u8>>,
    outcomes: Seq<StepOutcome>,
    r: Result<(), RemediationError>,
) -> bool {
    &&& (all_successful(outcomes, 3 * pviews.len() as int) ==> r == Ok::<(), RemediationError>(()))
    &&& (!all_successful(outcomes, 3 * pviews.len() as int) ==> exists|p: int|
        0 <= p < 3 * pviews.len() && outcomes[p] != StepOutcome::Exited(0i32) && all_successful(
            outcomes,
            p,
        ) && (r matches Err(RemediationError::Execution { kind, path, outcome }) && kind == plan_of(
            pviews,
        )[p].kind && path@ == plan_of(pviews)[p].path && outcome == outcomes[p]))
}

/// The remediation operation as the tool performs it: the problem listing
/// as the problem source produced it, the target identity resolved from the
/// platform for the user running the process, and for each planned action
/// the outcome the host reported, in order.
pub fn remediate_as_current_user(
    listing: Result<Vec<ProblemPath>, String>,
    outcomes: &Vec<StepOutcome>,
) -> (r: Result<(), RemediationError>)
    requires
        listing matches Ok(paths) ==> outcomes@.len() >= 3 * paths@.len(),
    ensures
        match listing {
            Err(m) => r matches Err(RemediationError::Listing(reported)) && reported == m,
            Ok(paths) => (r matches Err(RemediationError::Identity(_))) || scripted_outcome_holds(
                views_of(paths@),
                outcomes@,
                r,
            ),
        },
{
    run_remediation(listing, current_username_lookup(), outcomes)
}

} // verus!
