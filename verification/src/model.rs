//! The life cycle of the shared model: loaded at most once, on first use,
//! and reused from then on.

use vstd::prelude::*;

verus! {

/// What a request for the model has to do.
#[derive(Clone, Copy, Debug, PartialEq, Eq)]
pub enum InitPlan {
    /// The model is loaded already: hand it out.
    Reuse,
    /// The model file is cached: load it.
    Load,
    /// The model file is missing: fetch it, then load it.
    FetchThenLoad,
}

/// One request for the model, as the world answered it.
pub struct Attempt {
    /// Whether the model file was in the cache when the request came.
    pub artifact_present: bool,
    /// Whether the work the request called for, if any, succeeded.
    pub succeeded: bool,
}

/// What a request has to do, given whether the model is loaded and whether
/// its file is cached.
pub open spec fn plan_of(ready: bool, artifact_present: bool) -> InitPlan {
    if ready {
        InitPlan::Reuse
    } else if artifact_present {
        InitPlan::Load
    } else {
        InitPlan::FetchThenLoad
    }
}

/// Whether the model is loaded after the given requests, starting unloaded.
/// A failed attempt leaves it unloaded, so the next request tries again.
pub open spec fn ready_after(attempts: Seq<Attempt>) -> bool
    decreases attempts.len(),
{
    if attempts.len() == 0 {
        false
    } else {
        ready_after(attempts.drop_last()) || attempts.last().succeeded
    }
}

/// How many times the given requests loaded the model successfully.
pub open spec fn loads_after(attempts: Seq<Attempt>) -> nat
    decreases attempts.len(),
{
    if attempts.len() == 0 {
        0
    } else {
        let before = attempts.drop_last();
        let last = attempts.last();
        let step: nat = if plan_of(ready_after(before), last.artifact_present) != InitPlan::Reuse
            && last.succeeded {
            1
        } else {
            0
        };
        loads_after(before) + step
    }
}

/// How many times the given requests set out to fetch the model file.
pub open spec fn fetches_after(attempts: Seq<Attempt>) -> nat
    decreases attempts.len(),
{
    if attempts.len() == 0 {
        0
    } else {
        let before = attempts.drop_last();
        let last = attempts.last();
        let step: nat = if plan_of(ready_after(before), last.artifact_present)
            == InitPlan::FetchThenLoad {
            1
        } else {
            0
        };
        fetches_after(before) + step
    }
}

/// Whether the shared model is loaded.
#[derive(Clone, Copy, Debug)]
pub struct ModelSlot {
    /// True once a load has succeeded.
    pub ready: bool,
}

impl ModelSlot {
    /// A slot whose model is not loaded yet.
    pub fn new() -> (slot: ModelSlot)
        ensures
            !slot.ready,
    {
        ModelSlot { ready: false }
    }

    /// Decides what a request for the model has to do.
    pub fn plan(&self, artifact_present: bool) -> (plan: InitPlan)
        ensures
            plan == plan_of(self.ready, artifact_present),
    {
        if self.ready {
            InitPlan::Reuse
        } else if artifact_present {
            InitPlan::Load
        } else {
            InitPlan::FetchThenLoad
        }
    }

    /// Records how the work of a request ended: the model is loaded from the
    /// first success on.
    pub fn record(&mut self, succeeded: bool)
        ensures
            final(self).ready == (old(self).ready || succeeded),
    {
        if succeeded {
            self.ready = true;
        }
    }
}

/// However many requests are made, the model is loaded successfully at most
/// once, and exactly once if it is loaded at all.
pub proof fn lemma_loaded_at_most_once(attempts: Seq<Attempt>)
    ensures
        loads_after(attempts) == if ready_after(attempts) {
            1nat
        } else {
            0nat
        },
    decreases attempts.len(),
{
    if attempts.len() > 0 {
        lemma_loaded_at_most_once(attempts.drop_last());
    }
}

/// Once the model is loaded, further requests neither fetch nor load: the
/// model stays loaded and both counts stay as they are.
pub proof fn lemma_ready_is_final(attempts: Seq<Attempt>, more: Seq<Attempt>)
    requires
        ready_after(attempts),
    ensures
        ready_after(attempts + more),
        loads_after(attempts + more) == loads_after(attempts),
        fetches_after(attempts + more) == fetches_after(attempts),
    decreases more.len(),
{
    if more.len() == 0 {
        assert(attempts + more =~= attempts);
    } else {
        lemma_ready_is_final(attempts, more.drop_last());
        assert((attempts + more).drop_last() =~= attempts + more.drop_last());
        assert((attempts + more).last() == more.last());
    }
}

} // verus!
