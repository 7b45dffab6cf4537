//! The output scanner: a per-run, ANSI-stripped byte buffer grows with every
//! chunk read, and is tested against the step's error and success patterns
//! inside a bounded trailing window — the last `2 × pattern length` bytes of
//! the whole buffer, clamped to the full buffer when shorter. The error
//! pattern is tested first, and at most one scan impulse is ever recorded
//! for a run.

use vstd::prelude::*;
use vstd::utf8::encode_utf8;
use crate::cfg::{Impulse, is_scan_impulse};

verus! {

/// What strip_ansi_escapes::strip returns on these bytes: the bytes with
/// ANSI escape sequences removed.
pub uninterp spec fn stripped_of(s: Seq<u8>) -> Seq<u8>;

/// Relies on strip_ansi_escapes::strip: removes ANSI escape sequences from a
/// byte slice; the result depends on the input bytes alone.
#[verifier::external_body]
fn strip_bytes(chunk: &[u8]) -> (r: Vec<u8>)
    ensures
        r@ == stripped_of(chunk@),
{
    strip_ansi_escapes::strip(chunk)
}

/// The pattern occurs in the haystack at position `i`.
pub open spec fn occurs_at(hay: Seq<u8>, pat: Seq<u8>, i: int) -> bool {
    &&& 0 <= i
    &&& i + pat.len() <= hay.len()
    &&& hay.subrange(i, i + pat.len()) == pat
}

/// Where the trailing scan window begins: the last `2 × pattern length`
/// bytes of the buffer, or the whole buffer when it is shorter than that.
pub open spec fn window_lo(hay_len: int, pat_len: int) -> int {
    if 2 * pat_len <= hay_len {
        hay_len - 2 * pat_len
    } else {
        0
    }
}

/// Non-overlapping occurrences of the pattern from position `i` on, scanning
/// left to right and skipping a whole pattern length past each match.
pub open spec fn count_from(hay: Seq<u8>, pat: Seq<u8>, i: int) -> nat
    decreases hay.len() - i,
        when 0 <= i && pat.len() > 0
{
    if i + pat.len() > hay.len() {
        0
    } else if occurs_at(hay, pat, i) {
        1 + count_from(hay, pat, i + pat.len())
    } else {
        count_from(hay, pat, i + 1)
    }
}

/// How many times the pattern is found inside the trailing window. An empty
/// pattern's window is empty, and an empty pattern matches empty text once.
pub open spec fn window_count_spec(hay: Seq<u8>, pat: Seq<u8>) -> nat {
    if pat.len() == 0 {
        1
    } else {
        count_from(hay, pat, window_lo(hay.len() as int, pat.len() as int))
    }
}

/// A pattern is considered found when its count inside the window is nonzero.
pub open spec fn pattern_found(hay: Seq<u8>, pat: Seq<u8>) -> bool {
    window_count_spec(hay, pat) > 0
}

/// The pattern occurs in the haystack at exactly position `at`.
fn match_at(hay: &[u8], pat: &[u8], at: usize) -> (b: bool)
    requires
        at + pat@.len() <= hay@.len(),
    ensures
        b == occurs_at(hay@, pat@, at as int),
{
    let plen = pat.len();
    let hlen = hay.len();
    let mut j: usize = 0;
    while j < plen
        invariant
            plen == pat@.len(),
            hlen == hay@.len(),
            at + plen <= hlen,
            0 <= j <= plen,
            forall|k: int| 0 <= k < j ==> hay@[at + k] == pat@[k],
        decreases plen - j,
    {
        if hay[at + j] != pat[j] {
            assert(hay@.subrange(at as int, at + plen)[j as int] != pat@[j as int]);
            return false;
        }
        j = j + 1;
    }
    assert(hay@.subrange(at as int, at + plen) =~= pat@);
    true
}

/// Count the non-overlapping occurrences of the pattern inside the trailing
/// window of the buffer, recomputed from the whole buffer's length.
pub fn count_in_window(hay: &[u8], pat: &[u8]) -> (n: usize)
    ensures
        n == window_count_spec(hay@, pat@),
{
    let plen = pat.len();
    let hlen = hay.len();
    if plen == 0 {
        return 1;
    }
    let lo: usize = if plen <= hlen && plen <= hlen - plen {
        hlen - plen - plen
    } else {
        0
    };
    assert(lo as int == window_lo(hay@.len() as int, pat@.len() as int));
    let mut i: usize = lo;
    let mut n: usize = 0;
    while i <= hlen && plen <= hlen - i
        invariant
            plen == pat@.len(),
            hlen == hay@.len(),
            plen >= 1,
            i <= hlen,
            n <= i,
            n + count_from(hay@, pat@, i as int) == count_from(hay@, pat@, lo as int),
        decreases hlen - i,
    {
        if match_at(hay, pat, i) {
            n = n + 1;
            i = i + plen;
        } else {
            i = i + 1;
        }
    }
    n
}

/// The pattern is found inside the trailing window of the buffer.
pub fn window_found(hay: &[u8], pat: &[u8]) -> (b: bool)
    ensures
        b == pattern_found(hay@, pat@),
{
    count_in_window(hay, pat) > 0
}

/// How often each search term is found inside its trailing window of the
/// captured output — one count per term, in order. A term is reported found
/// when its count is nonzero.
pub fn search_counts(output: &[u8], terms: &Vec<String>) -> (counts: Vec<usize>)
    ensures
        counts@.len() == terms@.len(),
        forall|i: int| 0 <= i < terms@.len() ==> counts@[i] == window_count_spec(
            output@,
            encode_utf8(terms@[i]@),
        ),
{
    let n = terms.len();
    let mut counts: Vec<usize> = Vec::new();
    let mut i: usize = 0;
    while i < n
        invariant
            n == terms@.len(),
            0 <= i <= n,
            counts@.len() == i,
            forall|j: int| 0 <= j < i ==> counts@[j] == window_count_spec(
                output@,
                encode_utf8(terms@[j]@),
            ),
        decreases n - i,
    {
        counts.push(count_in_window(output, terms[i].as_str().as_bytes()));
        i = i + 1;
    }
    counts
}

/// The byte sequence an optional textual pattern scans for.
pub open spec fn opt_bytes(o: Option<&String>) -> Option<Seq<u8>> {
    match o {
        Some(s) => Some(encode_utf8(s@)),
        None => None,
    }
}

/// The verdict of one scan evaluation of the whole buffer: the error pattern
/// is tested first and wins ties; a missing pattern never matches.
pub open spec fn scan_verdict(
    buf: Seq<u8>,
    ok: Option<Seq<u8>>,
    err: Option<Seq<u8>>,
) -> Option<Impulse> {
    if err matches Some(p) && pattern_found(buf, p) {
        Some(Impulse::ScanErr)
    } else if ok matches Some(p) && pattern_found(buf, p) {
        Some(Impulse::ScanOk)
    } else {
        None
    }
}

/// Evaluate both patterns against the buffer, error first.
fn eval_patterns(buf: &Vec<u8>, ok: Option<&String>, err: Option<&String>) -> (r: Option<Impulse>)
    ensures
        r == scan_verdict(buf@, opt_bytes(ok), opt_bytes(err)),
{
    if let Some(p) = err {
        if window_found(buf.as_slice(), p.as_str().as_bytes()) {
            return Some(Impulse::ScanErr);
        }
    }
    if let Some(p) = ok {
        if window_found(buf.as_slice(), p.as_str().as_bytes()) {
            return Some(Impulse::ScanOk);
        }
    }
    None
}

/// The scan buffer after a chunk is read: the chunk is ANSI-stripped and
/// appended.
pub open spec fn feed_buffer(buf: Seq<u8>, chunk: Seq<u8>) -> Seq<u8> {
    buf + stripped_of(chunk)
}

/// The recorded impulse after one scan evaluation: an impulse already
/// recorded is immutable; otherwise the whole grown buffer is evaluated.
pub open spec fn feed_impulse(
    imp: Option<Impulse>,
    buf_after: Seq<u8>,
    ok: Option<Seq<u8>>,
    err: Option<Seq<u8>>,
) -> Option<Impulse> {
    match imp {
        Some(i) => Some(i),
        None => scan_verdict(buf_after, ok, err),
    }
}

/// The per-run state of the output scanner: the growing ANSI-stripped
/// buffer of everything read so far, and the scan impulse once recorded.
pub struct ScanState {
    pub buffer: Vec<u8>,
    pub impulse: Option<Impulse>,
}

impl ScanState {
    /// Only a scan-phase impulse is ever recorded here.
    pub open spec fn wf(self) -> bool {
        self.impulse matches Some(i) ==> is_scan_impulse(i)
    }

    /// A fresh run: empty buffer, no impulse recorded.
    pub fn new() -> (s: ScanState)
        ensures
            s.buffer@ == Seq::<u8>::empty(),
            s.impulse is None,
            s.wf(),
    {
        ScanState { buffer: Vec::new(), impulse: None }
    }

    /// Read one chunk: strip it, grow the buffer, and — only if no impulse
    /// has been recorded for this run — evaluate the patterns against the
    /// grown buffer. Returns the impulse newly recorded by this chunk, if
    /// any.
    pub fn feed(
        &mut self,
        chunk: &[u8],
        scan_ok: Option<&String>,
        scan_err: Option<&String>,
    ) -> (newly: Option<Impulse>)
        requires
            old(self).wf(),
        ensures
            final(self).buffer@ == feed_buffer(old(self).buffer@, chunk@),
            final(self).impulse == feed_impulse(
                old(self).impulse,
                final(self).buffer@,
                opt_bytes(scan_ok),
                opt_bytes(scan_err),
            ),
            newly == (if old(self).impulse is None {
                final(self).impulse
            } else {
                None::<Impulse>
            }),
            final(self).wf(),
    {
        let stripped = strip_bytes(chunk);
        let ghost buf0 = self.buffer@;
        let ghost imp0 = self.impulse;
        let m = stripped.len();
        let mut k: usize = 0;
        while k < m
            invariant
                m == stripped@.len(),
                0 <= k <= m,
                self.buffer@ == buf0 + stripped@.subrange(0, k as int),
                self.impulse == imp0,
            decreases m - k,
        {
            let b = stripped[k];
            self.buffer.push(b);
            assert(self.buffer@ =~= buf0 + stripped@.subrange(0, k + 1));
            k = k + 1;
        }
        assert(self.buffer@ =~= feed_buffer(buf0, chunk@));
        if self.impulse.is_none() {
            let verdict = eval_patterns(&self.buffer, scan_ok, scan_err);
            self.impulse = verdict;
            verdict
        } else {
            None
        }
    }
}

/// A scan-phase impulse is recorded at most once per run: once one stands,
/// feeding any further chunk leaves it exactly as it was, however often a
/// pattern matches again.
pub proof fn lemma_impulse_recorded_once(
    imp: Option<Impulse>,
    buf: Seq<u8>,
    chunk: Seq<u8>,
    ok: Option<Seq<u8>>,
    err: Option<Seq<u8>>,
)
    requires
        imp is Some,
    ensures
        feed_impulse(imp, feed_buffer(buf, chunk), ok, err) == imp,
{
}

/// The error pattern takes priority over the success pattern when both match
/// within the same scan evaluation.
pub proof fn lemma_error_pattern_wins(buf: Seq<u8>, ok: Seq<u8>, err: Seq<u8>)
    requires
        pattern_found(buf, err),
        pattern_found(buf, ok),
    ensures
        scan_verdict(buf, Some(ok), Some(err)) == Some(Impulse::ScanErr),
{
}

/// The count from a position is nonzero exactly when the pattern occurs at
/// or after that position.
pub proof fn lemma_count_positive_iff_occurrence(hay: Seq<u8>, pat: Seq<u8>, i: int)
    requires
        pat.len() > 0,
        0 <= i,
    ensures
        count_from(hay, pat, i) > 0 <==> exists|j: int| i <= j && occurs_at(hay, pat, j),
    decreases hay.len() - i,
{
    let plen = pat.len() as int;
    let hlen = hay.len() as int;
    if i + plen > hlen {
        assert forall|j: int| i <= j implies !occurs_at(hay, pat, j) by {
            assert(j + plen > hlen);
        }
    } else if occurs_at(hay, pat, i) {
        assert(count_from(hay, pat, i) > 0);
    } else {
        lemma_count_positive_iff_occurrence(hay, pat, i + 1);
        if exists|j: int| i <= j && occurs_at(hay, pat, j) {
            let j = choose|j: int| i <= j && occurs_at(hay, pat, j);
            assert(i + 1 <= j && occurs_at(hay, pat, j));
        }
    }
}

/// A nonempty pattern is found exactly when it occurs somewhere inside the
/// trailing window — at or after the window's first position.
pub proof fn lemma_found_iff_occurs_in_window(hay: Seq<u8>, pat: Seq<u8>)
    requires
        pat.len() > 0,
    ensures
        pattern_found(hay, pat) <==> exists|j: int|
            window_lo(hay.len() as int, pat.len() as int) <= j && occurs_at(hay, pat, j),
{
    lemma_count_positive_iff_occurrence(
        hay,
        pat,
        window_lo(hay.len() as int, pat.len() as int),
    );
}

/// When the buffer is shorter than twice the pattern, the trailing window is
/// the entire buffer.
pub proof fn lemma_window_clamps_to_buffer(hay_len: int, pat_len: int)
    requires
        hay_len < 2 * pat_len,
    ensures
        window_lo(hay_len, pat_len) == 0,
{
}

} // verus!
