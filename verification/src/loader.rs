//! Incremental suggestion loader: chunked, cancellable candidate scanning.
//!
//! The loader walks the candidate source in bounded windows of
//! `search_load_chunk_size` raw items; from each window it keeps, in scan
//! order, up to `search_result_chunk_size` candidates matching the current
//! expression prefix, and hands them to the aggregator as one chunk tagged
//! with the loader's generation. Scanning continues window by window until
//! the source is exhausted or the generation has been superseded, whichever
//! comes first, so the work done between two yield points is bounded
//! whatever the document size. A superseded loader stops at the next window
//! boundary and emits nothing further.

use vstd::prelude::*;

verus! {

use crate::generation::GenerationCounter;

/// `p` is a prefix of `s`.
pub open spec fn spec_is_prefix(p: Seq<char>, s: Seq<char>) -> bool {
    p.len() <= s.len() && s.subrange(0, p.len() as int) == p
}

/// The images of a list of candidate strings.
pub open spec fn strs_view(items: Seq<String>) -> Seq<Seq<char>> {
    items.map_values(|s: String| s@)
}

/// The matches kept from the window `[start, end)`: the candidates with the
/// wanted prefix, in scan order, truncated to the first `cap`.
pub open spec fn spec_scan(
    cands: Seq<Seq<char>>,
    start: int,
    end: int,
    prefix: Seq<char>,
    cap: nat,
) -> Seq<Seq<char>>
    decreases end - start,
{
    if start >= end || start < 0 || end > cands.len() || cap == 0 {
        Seq::empty()
    } else if spec_is_prefix(prefix, cands[start]) {
        seq![cands[start]] + spec_scan(cands, start + 1, end, prefix, (cap - 1) as nat)
    } else {
        spec_scan(cands, start + 1, end, prefix, cap)
    }
}

/// Whether `p` is a prefix of `s`, decided character by character.
#[verifier::loop_isolation(false)]
pub fn is_prefix(p: &String, s: &String) -> (r: bool)
    ensures
        r == spec_is_prefix(p@, s@),
{
    let plen = p.as_str().unicode_len();
    let slen = s.as_str().unicode_len();
    if plen > slen {
        return false;
    }
    let mut i: usize = 0;
    while i < plen
        invariant
            i <= p@.len(),
            forall|j: int| 0 <= j < i ==> p@[j] == s@[j],
        decreases p@.len() - i,
    {
        if p.as_str().get_char(i) != s.as_str().get_char(i) {
            proof {
                assert(s@.subrange(0, p@.len() as int)[i as int] == s@[i as int]);
            }
            return false;
        }
        i = i + 1;
    }
    proof {
        assert(s@.subrange(0, p@.len() as int) =~= p@);
    }
    true
}

/// One bounded batch of matches, tagged with the generation it was scanned
/// for.
pub struct SuggestionChunk {
    pub items: Vec<String>,
    pub generation: u64,
    /// Whether the source still has unscanned items after this window.
    pub more_available: bool,
}

/// The loader's restartable cursor over the candidate source.
pub struct LoaderState {
    /// Index of the first candidate the next window will scan.
    pub offset: usize,
    pub generation: u64,
    /// Set when the source is exhausted or the loader was superseded.
    pub finished: bool,
}

impl LoaderState {
    /// A fresh loader for one generation, starting at the head of the
    /// source.
    pub fn start(generation: u64) -> (r: Self)
        ensures
            r.offset == 0,
            r.generation == generation,
            !r.finished,
    {
        LoaderState { offset: 0, generation, finished: false }
    }

    /// Scans one window and returns its chunk, or nothing once finished.
    ///
    /// The cancellation check happens at this window boundary: a superseded
    /// loader finishes immediately, emits nothing, and scans nothing
    /// further. Otherwise the window covers `load_chunk_size` candidates
    /// (fewer at the end of the source), the offset advances past it, and
    /// the chunk carries the window's matches — at most
    /// `result_chunk_size` of them — in scan order.
    pub fn load_step(
        &mut self,
        candidates: &Vec<String>,
        prefix: &String,
        load_chunk_size: usize,
        result_chunk_size: usize,
        counter: &GenerationCounter,
    ) -> (chunk: Option<SuggestionChunk>)
        requires
            load_chunk_size >= 1,
        ensures
            final(self).generation == old(self).generation,
            old(self).finished ==> *final(self) == *old(self) && chunk is None,
            !old(self).finished && old(self).generation != counter.current ==> {
                &&& final(self).finished
                &&& final(self).offset == old(self).offset
                &&& chunk is None
            },
            !old(self).finished && old(self).generation == counter.current ==> {
                let end = if old(self).offset + load_chunk_size <= candidates@.len() {
                    old(self).offset + load_chunk_size
                } else {
                    candidates@.len() as int
                };
                &&& old(self).offset <= candidates@.len() ==> {
                    &&& final(self).offset == end
                    &&& final(self).finished == (end == candidates@.len())
                    &&& chunk matches Some(c) && strs_view(c.items@) == spec_scan(
                        strs_view(candidates@),
                        old(self).offset as int,
                        end,
                        prefix@,
                        result_chunk_size as nat,
                    ) && c.generation == old(self).generation && c.more_available == (end
                        < candidates@.len())
                }
                &&& old(self).offset > candidates@.len() ==> final(self).finished && chunk is None
            },
    {
        if self.finished {
            return None;
        }
        if self.generation != counter.current {
            self.finished = true;
            return None;
        }
        if self.offset > candidates.len() {
            self.finished = true;
            return None;
        }
        let start = self.offset;
        let end = if candidates.len() - start >= load_chunk_size {
            start + load_chunk_size
        } else {
            candidates.len()
        };
        let mut items: Vec<String> = Vec::new();
        let mut i: usize = start;
        while i < end && items.len() < result_chunk_size
            invariant
                start <= i <= end <= candidates@.len(),
                items@.len() <= result_chunk_size,
                strs_view(items@) + spec_scan(
                    strs_view(candidates@),
                    i as int,
                    end as int,
                    prefix@,
                    (result_chunk_size - items@.len()) as nat,
                ) == spec_scan(
                    strs_view(candidates@),
                    start as int,
                    end as int,
                    prefix@,
                    result_chunk_size as nat,
                ),
            decreases end - i,
        {
            let ghost items_pre = items@;
            if is_prefix(prefix, &candidates[i]) {
                items.push(candidates[i].clone());
                proof {
                    assert(strs_view(items@) =~= strs_view(items_pre).push(candidates@[i as int]@));
                    assert(strs_view(candidates@)[i as int] == candidates@[i as int]@);
                    assert(strs_view(items@) + spec_scan(
                        strs_view(candidates@),
                        i + 1,
                        end as int,
                        prefix@,
                        (result_chunk_size - items@.len()) as nat,
                    ) =~= strs_view(items_pre) + spec_scan(
                        strs_view(candidates@),
                        i as int,
                        end as int,
                        prefix@,
                        (result_chunk_size - items_pre.len()) as nat,
                    ));
                }
            } else {
                proof {
                    assert(strs_view(candidates@)[i as int] == candidates@[i as int]@);
                }
            }
            i = i + 1;
        }
        proof {
            if items@.len() == result_chunk_size {
                lemma_scan_cap_zero(strs_view(candidates@), i as int, end as int, prefix@);
            }
        }
        self.offset = end;
        self.finished = end == candidates.len();
        Some(
            SuggestionChunk {
                items,
                generation: self.generation,
                more_available: end < candidates.len(),
            },
        )
    }
}

/// A window with no result budget left keeps nothing.
proof fn lemma_scan_cap_zero(cands: Seq<Seq<char>>, start: int, end: int, prefix: Seq<char>)
    ensures
        spec_scan(cands, start, end, prefix, 0) == Seq::<Seq<char>>::empty(),
{
}

/// The number of windows needed to scan `remaining` candidates in windows
/// of `c`: the ceiling of `remaining / c`.
pub open spec fn spec_windows(remaining: nat, c: nat) -> nat
    decreases remaining,
{
    if c == 0 {
        0
    } else if remaining == 0 {
        0
    } else if remaining <= c {
        1
    } else {
        1 + spec_windows((remaining - c) as nat, c)
    }
}

///`spec_windows` is exactly the ceiling of the division: it is the unique
/// count of full-or-final windows covering the source.
pub proof fn lemma_windows_is_ceiling(remaining: nat, c: nat)
    requires
        c >= 1,
    ensures
        spec_windows(remaining, c) == (remaining + c - 1) / (c as int),
    decreases remaining,
{
    if remaining == 0 {
        assert((c - 1) / (c as int) == 0) by (nonlinear_arith)
            requires
                c >= 1,
        ;
    } else if remaining <= c {
        assert(spec_windows(remaining, c) == 1);
        assert((remaining + c - 1) / (c as int) == 1) by (nonlinear_arith)
            requires
                1 <= remaining <= c,
        ;
    } else {
        lemma_windows_is_ceiling((remaining - c) as nat, c);
        assert((remaining + c - 1) / (c as int) == (remaining - c + c - 1) / (c as int) + 1)
            by (nonlinear_arith)
            requires
                c >= 1 && remaining > c,
        ;
    }
}

/// Loader law: with a source of `M` candidates and a window size of `C`,
/// an uncancelled loader completes in exactly ⌈M / C⌉ window iterations —
/// every step up to the last returns a chunk, and the run returns how many
/// steps were taken.
#[verifier::loop_isolation(false)]
pub fn load_all(
    candidates: &Vec<String>,
    prefix: &String,
    load_chunk_size: usize,
    result_chunk_size: usize,
    counter: &GenerationCounter,
) -> (iterations: usize)
    requires
        load_chunk_size >= 1,
    ensures
        iterations as nat == spec_windows(candidates@.len() as nat, load_chunk_size as nat),
{
    let mut state = LoaderState::start(counter.current);
    let mut iterations: usize = 0;
    if candidates.len() == 0 {
        return 0;
    }
    while !state.finished
        invariant
            candidates@.len() > 0,
            state.generation == counter.current,
            state.offset <= candidates@.len(),
            !state.finished ==> iterations as nat + spec_windows(
                (candidates@.len() - state.offset) as nat,
                load_chunk_size as nat,
            ) == spec_windows(candidates@.len() as nat, load_chunk_size as nat),
            state.finished ==> iterations as nat == spec_windows(
                candidates@.len() as nat,
                load_chunk_size as nat,
            ),
            !state.finished ==> state.offset < candidates@.len(),
            iterations <= state.offset,
        decreases candidates@.len() - state.offset + (if state.finished { 0int } else { 1int }),
    {
        let _chunk = state.load_step(
            candidates,
            prefix,
            load_chunk_size,
            result_chunk_size,
            counter,
        );
        iterations = iterations + 1;
    }
    iterations
}

} // verus!
