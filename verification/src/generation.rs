//! Generations and cooperative cancellation.
//!
//! A generation is a monotonically increasing integer identifying "the work
//! started for keystroke N". Every cancellable asynchronous unit captures a
//! token carrying the generation active at its start and checks that it is
//! still current before publishing a result or starting another unit of
//! work. Starting a new generation invalidates every earlier token;
//! cancellation is cooperative, so an uncancellable external call may still
//! complete, but its result is discarded on delivery.

use vstd::prelude::*;

verus! {

/// The single source of truth for the current generation.
pub struct GenerationCounter {
    pub current: u64,
}

/// A per-generation marker handed to background work.
#[derive(Clone, Copy)]
pub struct CancellationToken {
    pub generation: u64,
}

impl GenerationCounter {
    pub fn new() -> (r: Self)
        ensures
            r.current == 0,
    {
        GenerationCounter { current: 0 }
    }

    /// Starts the work for a new keystroke: every token issued earlier
    /// stops being current, and the returned token is the only current one.
    pub fn begin_generation(&mut self) -> (token: CancellationToken)
        requires
            old(self).current < u64::MAX,
        ensures
            final(self).current == old(self).current + 1,
            token.generation == final(self).current,
    {
        self.current = self.current + 1;
        CancellationToken { generation: self.current }
    }
}

impl CancellationToken {
    /// Cooperative cancellation check: true exactly while no newer
    /// generation has been started since this token was issued.
    pub fn is_current(&self, counter: &GenerationCounter) -> (r: bool)
        ensures
            r == (self.generation == counter.current),
    {
        self.generation == counter.current
    }
}

/// Starting a new generation invalidates every previously issued token:
/// a token is current for at most one value of the counter, and after
/// `begin_generation` only the fresh token is current.
pub proof fn lemma_new_generation_invalidates_older(
    pre: GenerationCounter,
    post: GenerationCounter,
    older: CancellationToken,
    fresh: CancellationToken,
)
    requires
        older.generation <= pre.current,
        post.current == pre.current + 1,
        fresh.generation == post.current,
    ensures
        older.generation != post.current,
        fresh.generation == post.current,
{
}

} // verus!
