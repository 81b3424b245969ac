use vstd::prelude::*;
use vstd::utf8::*;
use crate::backend::{Backend, command_of, version_command, version_invocation};
use crate::error::{classify, run_failure, CompilerError, ErrorView, ProcessRun};

verus! {

/// Index of the last line feed in `b`, or -1 where there is none.
pub open spec fn last_break(b: Seq<u8>) -> int
    decreases b.len(),
{
    if b.len() == 0 {
        -1
    } else if b.last() == 10u8 {
        b.len() - 1
    } else {
        last_break(b.drop_last())
    }
}

/// A line that a line feed ends, without the carriage return that may stand
/// before that line feed.
pub open spec fn strip_cr(l: Seq<u8>) -> Seq<u8> {
    if l.len() > 0 && l.last() == 13u8 {
        l.drop_last()
    } else {
        l
    }
}

proof fn lemma_last_break(b: Seq<u8>)
    ensures
        -1 <= last_break(b) < b.len(),
        last_break(b) >= 0 ==> b[last_break(b)] == 10u8,
        forall|j: int| last_break(b) < j < b.len() ==> b[j] != 10u8,
    decreases b.len(),
{
    if b.len() > 0 && b.last() != 10u8 {
        lemma_last_break(b.drop_last());
        assert forall|j: int| last_break(b) < j < b.len() implies b[j] != 10u8 by {
            if j < b.len() - 1 {
                assert(b[j] == b.drop_last()[j]);
            }
        }
    }
}

#[via_fn]
proof fn last_line_before_decreases(b: Seq<u8>, terminated: bool) {
    lemma_last_break(b);
}

/// The last non-empty line of `b`, where lines are split at line feeds and
/// lose a carriage return that stands just before their line feed;
/// `terminated` says whether a line feed follows `b`.
pub open spec fn last_line_before(b: Seq<u8>, terminated: bool) -> Option<Seq<u8>>
    decreases b.len(),
    via last_line_before_decreases
{
    let k = last_break(b);
    let segment = b.subrange(k + 1, b.len() as int);
    let line = if terminated {
        strip_cr(segment)
    } else {
        segment
    };
    if line.len() > 0 {
        Some(line)
    } else if k < 0 {
        None
    } else {
        last_line_before(b.subrange(0, k), true)
    }
}

/// The last line of the output `b` that is not empty once its terminator, a
/// line feed or a carriage return and line feed, is dropped; `None` where
/// every line is empty. What follows the last line feed is a line as it stands.
pub open spec fn last_text_line(b: Seq<u8>) -> Option<Seq<u8>> {
    last_line_before(b, false)
}

proof fn lemma_last_break_at(b: Seq<u8>, k: int)
    requires
        0 <= k <= b.len(),
        k == 0 || b[k - 1] == 10u8,
        forall|j: int| k <= j < b.len() ==> b[j] != 10u8,
    ensures
        last_break(b) == k - 1,
    decreases b.len(),
{
    if b.len() > k {
        lemma_last_break_at(b.drop_last(), k);
    }
}

/// Finds the last non-empty line of `b`: its bounds, which end at a line
/// feed, a carriage return or the end of `b`.
fn last_line_bounds(b: &[u8]) -> (r: Option<(usize, usize)>)
    ensures
        match last_text_line(b@) {
            None => r is None,
            Some(l) => r is Some && {
                let (s, e) = r->Some_0;
                &&& s < e <= b@.len()
                &&& b@.subrange(s as int, e as int) == l
                &&& s == 0 || b@[s - 1] == 10u8
                &&& e == b@.len() || b@[e as int] == 10u8 || b@[e as int] == 13u8
            },
        },
{
    let mut end: usize = b.len();
    assert(b@.subrange(0, end as int) =~= b@);
    loop
        invariant
            end <= b@.len(),
            end == b@.len() || b@[end as int] == 10u8,
            last_text_line(b@) == last_line_before(b@.subrange(0, end as int), end < b@.len()),
        decreases end,
    {
        let mut k: usize = end;
        while k > 0 && b[k - 1] != 10u8
            invariant
                k <= end <= b@.len(),
                forall|j: int| k <= j < end ==> b@[j] != 10u8,
            decreases k,
        {
            k = k - 1;
        }
        let ghost prefix = b@.subrange(0, end as int);
        proof {
            lemma_last_break_at(prefix, k as int);
            assert(prefix.subrange(k as int, end as int) =~= b@.subrange(k as int, end as int));
            if k > 0 {
                assert(prefix.subrange(0, k as int - 1) =~= b@.subrange(0, k as int - 1));
            }
        }
        let mut stop: usize = end;
        if end < b.len() && stop > k && b[stop - 1] == 13u8 {
            stop = stop - 1;
        }
        proof {
            let line = b@.subrange(k as int, end as int);
            if end < b@.len() && line.len() > 0 && line.last() == 13u8 {
                assert(line.drop_last() =~= b@.subrange(k as int, stop as int));
            } else {
                assert(line =~= b@.subrange(k as int, stop as int));
            }
        }
        if stop > k {
            return Some((k, stop));
        }
        if k == 0 {
            return None;
        }
        end = k - 1;
    }
}

/// Relies on std::str::from_utf8: the bytes are text exactly when they are
/// valid UTF-8, and the text is what they encode.
#[verifier::external_body]
pub(crate) fn utf8_text(bytes: &[u8]) -> (r: Option<&str>)
    ensures
        r is Some <==> valid_utf8(bytes@),
        r is Some ==> r->Some_0@ == decode_utf8(bytes@),
{
    std::str::from_utf8(bytes).ok()
}

proof fn lemma_line_valid(b: Seq<u8>, s: int, e: int)
    requires
        valid_utf8(b),
        0 <= s < e <= b.len(),
        s == 0 || b[s - 1] == 10u8,
        e == b.len() || b[e] == 10u8 || b[e] == 13u8,
    ensures
        valid_utf8(b.subrange(s, e)),
{
    let tail = b.subrange(s, b.len() as int);
    if s == 0 {
        assert(tail =~= b);
    } else {
        is_char_boundary_iff_not_is_continuation_byte(b, s - 1);
        valid_utf8_split(b, s - 1);
        let r = b.subrange(s - 1, b.len() as int);
        assert(valid_utf8(r));
        assert(r[0] == 10u8);
        assert(pop_first_scalar(r) =~= tail);
    }
    assert(valid_utf8(tail));
    if e < b.len() {
        assert(tail[e - s] == b[e]);
        is_char_boundary_iff_not_is_continuation_byte(tail, e - s);
        valid_utf8_split(tail, e - s);
    }
    assert(tail.subrange(0, e - s) =~= b.subrange(s, e));
    assert(is_char_boundary(tail, e - s) ==> valid_utf8(tail.subrange(0, e - s)));
    if e == b.len() {
        assert(tail.subrange(0, e - s) =~= tail);
    }
}

/// A version result, with its text and failure as plain values.
pub open spec fn version_view(r: Result<String, CompilerError>) -> Result<Seq<char>, ErrorView> {
    match r {
        Ok(s) => Ok(s@),
        Err(e) => Err(e@),
    }
}

/// What the version probe of `b` yields from its run: the failure of the run,
/// else the last non-empty line of its standard output as text.
pub open spec fn version_outcome(b: Backend, run: ProcessRun) -> Result<Seq<char>, ErrorView> {
    let command = command_of(version_invocation(b));
    match run_failure(command, run) {
        Some(e) => Err(e),
        None => {
            let out = run->Exited_0.stdout@;
            if !valid_utf8(out) {
                Err(ErrorView::OutputNotUtf8(command))
            } else {
                match last_text_line(out) {
                    None => Err(ErrorView::OutputEmpty(command)),
                    Some(line) => Ok(decode_utf8(line)),
                }
            }
        },
    }
}

/// Reads the version of `b` from the run of `b --version`.
pub fn version_from_run(b: Backend, run: ProcessRun) -> (r: Result<String, CompilerError>)
    ensures
        version_view(r) == version_outcome(b, run),
{
    let command = version_command(b).command();
    let out = match classify(&command, run) {
        Ok(out) => out,
        Err(e) => {
            return Err(e);
        },
    };
    let bytes = out.stdout.as_slice();
    if utf8_text(bytes).is_none() {
        return Err(CompilerError::OutputNotUtf8 { command });
    }
    match last_line_bounds(bytes) {
        None => Err(CompilerError::OutputEmpty { command }),
        Some((s, e)) => {
            proof {
                lemma_line_valid(bytes@, s as int, e as int);
            }
            match utf8_text(&bytes[s..e]) {
                Some(text) => Ok(text.to_owned()),
                None => Err(CompilerError::OutputNotUtf8 { command }),
            }
        },
    }
}

/// The version of `solc`, read from the run of `solc --version`.
pub fn solc_version(run: ProcessRun) -> (r: Result<String, CompilerError>)
    ensures
        version_view(r) == version_outcome(Backend::Solc, run),
{
    version_from_run(Backend::Solc, run)
}

/// The version of `solcjs`, read from the run of `solcjs --version`.
pub fn solcjs_version(run: ProcessRun) -> (r: Result<String, CompilerError>)
    ensures
        version_view(r) == version_outcome(Backend::Solcjs, run),
{
    version_from_run(Backend::Solcjs, run)
}

/// Whether `solc` is usable: its version probe succeeded.
pub fn is_solc_available(run: ProcessRun) -> (r: bool)
    ensures
        r == version_outcome(Backend::Solc, run) is Ok,
{
    solc_version(run).is_ok()
}

/// Whether `solcjs` is usable: its version probe succeeded.
pub fn is_solcjs_available(run: ProcessRun) -> (r: bool)
    ensures
        r == version_outcome(Backend::Solcjs, run) is Ok,
{
    solcjs_version(run).is_ok()
}

} // verus!
