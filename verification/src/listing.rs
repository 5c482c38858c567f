//! The problem listing: what the audit facility reported, parsed into paths.

use vstd::prelude::*;

verus! {

/// A filesystem path flagged by the audit facility as needing remediation.
/// On Unix a path is a sequence of bytes; the remediator treats it as an
/// opaque value and never looks inside it.
#[derive(Debug)]
pub struct ProblemPath {
    pub bytes: Vec<u8>,
}

impl View for ProblemPath {
    type V = Seq<u8>;

    open spec fn view(&self) -> Seq<u8> {
        self.bytes@
    }
}

impl Clone for ProblemPath {
    fn clone(&self) -> (r: Self)
        ensures
            r@ == self@,
    {
        let mut bytes: Vec<u8> = Vec::new();
        let mut k: usize = 0;
        while k < self.bytes.len()
            invariant
                k <= self.bytes.len(),
                bytes@ == self.bytes@.take(k as int),
            decreases self.bytes.len() - k,
        {
            bytes.push(self.bytes[k]);
            proof {
                assert(bytes@ =~= self.bytes@.take(k + 1));
            }
            k = k + 1;
        }
        proof {
            assert(bytes@ =~= self.bytes@);
        }
        ProblemPath { bytes }
    }
}

/// The paths of a listing, as the byte sequences the contracts speak of.
pub open spec fn views_of(paths: Seq<ProblemPath>) -> Seq<Seq<u8>> {
    paths.map_values(|p: ProblemPath| p@)
}

/// A byte the parser strips from the ends of a line: ASCII space or one of
/// the control whitespace characters (tab, line feed, vertical tab, form
/// feed, carriage return).
pub open spec fn is_blank(b: u8) -> bool {
    b == 32 || (9 <= b && b <= 13)
}

/// The length of the first line of `s`: the index of the first line feed,
/// or the whole length when there is none.
pub open spec fn first_line_len(s: Seq<u8>) -> nat
    decreases s.len(),
{
    if s.len() == 0 {
        0
    } else if s[0] == 10 {
        0
    } else {
        1 + first_line_len(s.drop_first())
    }
}

pub open spec fn trim_front(s: Seq<u8>) -> Seq<u8>
    decreases s.len(),
{
    if s.len() > 0 && is_blank(s[0]) {
        trim_front(s.drop_first())
    } else {
        s
    }
}

pub open spec fn trim_back(s: Seq<u8>) -> Seq<u8>
    decreases s.len(),
{
    if s.len() > 0 && is_blank(s.last()) {
        trim_back(s.drop_last())
    } else {
        s
    }
}

/// `s` without its leading and trailing blanks.
pub open spec fn trimmed(s: Seq<u8>) -> Seq<u8> {
    trim_back(trim_front(s))
}

/// The paths named by the audit facility's captured output: one per line,
/// each trimmed of leading and trailing blanks.  A line that holds only
/// blanks names no path and yields no entry, so a trailing line feed or an
/// empty output lists nothing.
pub open spec fn problem_paths_of(s: Seq<u8>) -> Seq<Seq<u8>>
    decreases s.len(),
{
    if s.len() == 0 {
        seq![]
    } else {
        let n = first_line_len(s);
        let line = trimmed(s.take(n as int));
        let rest = if n < s.len() {
            problem_paths_of(s.skip(n as int + 1))
        } else {
            seq![]
        };
        if line.len() > 0 {
            seq![line] + rest
        } else {
            rest
        }
    }
}

pub proof fn lemma_first_line_len_is(s: Seq<u8>, n: int)
    requires
        0 <= n <= s.len(),
        forall|i: int| 0 <= i < n ==> s[i] != 10,
        n < s.len() ==> s[n] == 10,
    ensures
        first_line_len(s) == n,
    decreases s.len(),
{
    if s.len() == 0 {
    } else if s[0] == 10 {
        assert(n == 0);
    } else {
        assert(n >= 1);
        lemma_first_line_len_is(s.drop_first(), n - 1);
    }
}

pub proof fn lemma_trim_front_is(s: Seq<u8>, a: int)
    requires
        0 <= a <= s.len(),
        forall|i: int| 0 <= i < a ==> is_blank(s[i]),
        a < s.len() ==> !is_blank(s[a]),
    ensures
        trim_front(s) == s.skip(a),
    decreases a,
{
    if a == 0 {
        assert(s.skip(0) =~= s);
    } else {
        lemma_trim_front_is(s.drop_first(), a - 1);
        assert(s.drop_first().skip(a - 1) =~= s.skip(a));
    }
}

pub proof fn lemma_trim_back_is(s: Seq<u8>, b: int)
    requires
        0 <= b <= s.len(),
        forall|i: int| b <= i < s.len() ==> is_blank(s[i]),
        b > 0 ==> !is_blank(s[b - 1]),
    ensures
        trim_back(s) == s.take(b),
    decreases s.len(),
{
    if b == s.len() {
        assert(s.take(b) =~= s);
    } else {
        assert(is_blank(s.last()));
        lemma_trim_back_is(s.drop_last(), b);
        assert(s.drop_last().take(b) =~= s.take(b));
    }
}

fn blank_byte(b: u8) -> (r: bool)
    ensures
        r == is_blank(b),
{
    b == 32 || (9 <= b && b <= 13)
}

/// Parses the audit facility's captured standard output into the listed
/// paths, exactly as `problem_paths_of` describes: one path per line,
/// trimmed of leading and trailing blanks, blank lines yielding none.
pub fn parse_problem_list(out: &[u8]) -> (r: Vec<ProblemPath>)
    ensures
        views_of(r@) == problem_paths_of(out@),
{
    let mut r: Vec<ProblemPath> = Vec::new();
    let mut start: usize = 0;
    proof {
        assert(out@.skip(0) =~= out@);
        assert(views_of(r@) =~= Seq::<Seq<u8>>::empty());
        assert(views_of(r@) + problem_paths_of(out@) =~= problem_paths_of(out@));
    }
    while start < out.len()
        invariant
            start <= out.len(),
            problem_paths_of(out@) == views_of(r@) + problem_paths_of(out@.skip(start as int)),
        decreases out.len() - start,
    {
        let ghost sub = out@.skip(start as int);
        // Find the end of the current line.
        let mut j: usize = start;
        while j < out.len() && out[j] != 10
            invariant
                start <= j <= out.len(),
                forall|i: int| start <= i < j ==> out@[i] != 10,
            decreases out.len() - j,
        {
            j = j + 1;
        }
        proof {
            assert(forall|i: int| 0 <= i < j - start ==> sub[i] == out@[start + i]);
            lemma_first_line_len_is(sub, j - start);
        }
        // Trim blanks from both ends of the line.
        let mut a: usize = start;
        while a < j && blank_byte(out[a])
            invariant
                start <= a <= j <= out.len(),
                forall|i: int| start <= i < a ==> is_blank(out@[i]),
            decreases j - a,
        {
            a = a + 1;
        }
        let mut b: usize = j;
        while b > a && blank_byte(out[b - 1])
            invariant
                a <= b <= j <= out.len(),
                forall|i: int| b <= i < j ==> is_blank(out@[i]),
            decreases b,
        {
            b = b - 1;
        }
        let ghost seg = out@.subrange(start as int, j as int);
        proof {
            assert(sub.take(j - start) =~= seg);
            lemma_trim_front_is(seg, a - start);
            assert(seg.skip(a - start) =~= out@.subrange(a as int, j as int));
            lemma_trim_back_is(out@.subrange(a as int, j as int), b - a);
            assert(out@.subrange(a as int, j as int).take(b - a) =~= out@.subrange(
                a as int,
                b as int,
            ));
            assert(trimmed(sub.take(j - start)) == out@.subrange(a as int, b as int));
        }
        // A non-blank remainder is the next listed path.
        if a < b {
            let mut bytes: Vec<u8> = Vec::new();
            let mut k: usize = a;
            while k < b
                invariant
                    a <= k <= b <= out.len(),
                    bytes@ == out@.subrange(a as int, k as int),
                decreases b - k,
            {
                bytes.push(out[k]);
                proof {
                    assert(bytes@ =~= out@.subrange(a as int, k + 1));
                }
                k = k + 1;
            }
            let ghost old_r = r@;
            r.push(ProblemPath { bytes });
            proof {
                assert(views_of(r@) =~= views_of(old_r) + seq![out@.subrange(a as int, b as int)]);
            }
        }
        let ghost old_start = start as int;
        let ghost old_views = views_of(r@);
        let ghost line = out@.subrange(a as int, b as int);
        if j == out.len() {
            start = j;
            proof {
                assert(sub.len() > 0);
                assert(first_line_len(sub) == sub.len());
                assert(out@.skip(start as int) =~= sub.skip(j - old_start));
                assert(problem_paths_of(out@.skip(start as int)) =~= Seq::<Seq<u8>>::empty());
                if a < b {
                    assert(problem_paths_of(sub) =~= seq![line]);
                    assert(old_views + seq![line] =~= old_views + problem_paths_of(sub));
                } else {
                    assert(line.len() == 0);
                    assert(problem_paths_of(sub) =~= Seq::<Seq<u8>>::empty());
                    assert(old_views + problem_paths_of(sub) =~= old_views);
                }
                assert(views_of(r@) + problem_paths_of(out@.skip(start as int)) =~= views_of(
                    r@,
                ));
                assert(problem_paths_of(out@) == views_of(r@) + problem_paths_of(
                    out@.skip(start as int),
                ));
            }
        } else {
            start = j + 1;
            proof {
                let rest = problem_paths_of(out@.skip(start as int));
                assert(sub.len() > 0);
                assert(first_line_len(sub) < sub.len());
                assert(sub.skip(j - old_start + 1) =~= out@.skip(start as int));
                if a < b {
                    assert(problem_paths_of(sub) == seq![line] + rest);
                    assert(old_views + (seq![line] + rest) =~= (old_views + seq![line]) + rest);
                } else {
                    assert(line.len() == 0);
                    assert(problem_paths_of(sub) == rest);
                }
                assert(problem_paths_of(out@) == views_of(r@) + problem_paths_of(
                    out@.skip(start as int),
                ));
            }
        }
    }
    proof {
        assert(out@.skip(out@.len() as int) =~= Seq::<u8>::empty());
        assert(problem_paths_of(out@.skip(start as int)) =~= Seq::<Seq<u8>>::empty());
        assert(views_of(r@) + Seq::<Seq<u8>>::empty() =~= views_of(r@));
    }
    r
}

/// Why the listing step failed even though the audit facility was launched.
#[derive(Debug)]
pub enum ListingFault {
    /// The facility was terminated without an exit code (by a signal).
    SignalTerminated,
}

/// Interprets the audit facility's run.  A facility terminated without an
/// exit code fails the listing outright; any exit code, zero or not, leaves
/// the captured output to be parsed into the problem list.
pub fn interpret_audit_output(exit_code: Option<i32>, stdout: &[u8]) -> (r: Result<
    Vec<ProblemPath>,
    ListingFault,
>)
    ensures
        exit_code matches None ==> r == Err::<Vec<ProblemPath>, ListingFault>(
            ListingFault::SignalTerminated,
        ),
        exit_code matches Some(_) ==> r matches Ok(paths) && views_of(paths@)
            == problem_paths_of(stdout@),
{
    match exit_code {
        None => Err(ListingFault::SignalTerminated),
        Some(_) => Ok(parse_problem_list(stdout)),
    }
}

} // verus!
