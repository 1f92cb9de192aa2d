use vstd::prelude::*;

verus! {

/// What a history of values answers for the relative index `key`, when at most
/// `cap` of the newest values are kept: the value written `-key` updates ago,
/// or `None` for a future index, a lookback beyond the capacity, or a lookback
/// beyond what was written.
pub open spec fn recorded<T>(hist: Seq<T>, cap: nat, key: int) -> Option<T> {
    if key <= 0 && -key < hist.len() && -key < cap {
        Some(hist[hist.len() - 1 + key])
    } else {
        None
    }
}

/// The lifecycle shared by every indicator: `update` advances the state by one
/// input, `get` reads the retained output history, `reset` starts over.
///
/// An indicator is warming up while it has seen fewer inputs than its warmup
/// length, and ready afterwards; `update` yields an output exactly when the
/// indicator is ready after taking the input.
pub trait Indicator: Sized {
    type Input;
    type Output;

    /// Well-formedness of the internal state.
    open spec fn wf(&self) -> bool {
        true
    }

    /// Number of inputs taken since construction or the last reset.
    open spec fn seen(&self) -> nat {
        0
    }

    /// Number of inputs needed before the first output.
    open spec fn warmup(&self) -> nat {
        1
    }

    /// The answer of `get(key)` in the current state.
    open spec fn lookup(&self, key: int) -> Option<Self::Output> {
        None
    }

    /// Whether `next` is the state that taking `value` leads to from this one.
    open spec fn steps_to(&self, value: Self::Input, next: Self) -> bool {
        true
    }

    /// Takes one input; returns the new output once the warmup is over.
    fn update(&mut self, value: Self::Input) -> (r: Option<Self::Output>)
        requires
            old(self).wf(),
        ensures
            final(self).wf(),
            old(self).steps_to(value, *final(self)),
            final(self).seen() == old(self).seen() + 1,
            final(self).warmup() == old(self).warmup(),
            r.is_some() <==> final(self).seen() >= final(self).warmup(),
            r == final(self).lookup(0),
    ;

    /// Reads the output history at relative index `key` (0 is the newest).
    fn get(&self, key: i32) -> (r: Option<Self::Output>)
        requires
            self.wf(),
        ensures
            r == self.lookup(key as int),
    ;

    /// Returns to the state of a new indicator: nothing seen, nothing retained.
    fn reset(&mut self)
        requires
            old(self).wf(),
        ensures
            final(self).wf(),
            final(self).seen() == 0,
            final(self).warmup() == old(self).warmup(),
            forall|key: int| #[trigger] final(self).lookup(key) is None,
    ;
}

} // verus!
