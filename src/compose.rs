use vstd::prelude::*;
use crate::indicator::Indicator;

verus! {

/// Both values when both are there.
pub open spec fn both<X, Y>(x: Option<X>, y: Option<Y>) -> Option<(X, Y)> {
    match (x, y) {
        (Some(a), Some(b)) => Some((a, b)),
        _ => None,
    }
}

/// Two indicators run side by side on the same inputs, the first one first.
///
/// Its output is the pair of their outputs, available once both are: its
/// warmup is the longer of the two.
pub struct Pair<A, B> {
    first: A,
    second: B,
}

impl<A: Indicator, B: Indicator<Input = A::Input>> Pair<A, B> where A::Input: Copy {
    /// The indicator that takes each input first.
    pub closed spec fn first(&self) -> A {
        self.first
    }

    /// The indicator that takes each input second.
    pub closed spec fn second(&self) -> B {
        self.second
    }

    /// Joins two indicators that have taken the same number of inputs.
    pub fn new(first: A, second: B) -> (r: Self)
        requires
            first.wf(),
            second.wf(),
            first.seen() == second.seen(),
        ensures
            r.wf(),
            r.first() == first,
            r.second() == second,
    {
        Pair { first, second }
    }
}

impl<A: Indicator, B: Indicator<Input = A::Input>> Indicator for Pair<A, B> where A::Input: Copy {
    type Input = A::Input;

    type Output = (A::Output, B::Output);

    open spec fn wf(&self) -> bool {
        &&& self.first().wf()
        &&& self.second().wf()
        &&& self.first().seen() == self.second().seen()
    }

    open spec fn seen(&self) -> nat {
        self.first().seen()
    }

    open spec fn warmup(&self) -> nat {
        if self.first().warmup() >= self.second().warmup() {
            self.first().warmup()
        } else {
            self.second().warmup()
        }
    }

    open spec fn steps_to(&self, value: A::Input, next: Self) -> bool {
        &&& self.first().steps_to(value, next.first())
        &&& self.second().steps_to(value, next.second())
    }

    open spec fn lookup(&self, key: int) -> Option<(A::Output, B::Output)> {
        both(self.first().lookup(key), self.second().lookup(key))
    }

    /// Updates both members with `value`, the first one first.
    fn update(&mut self, value: A::Input) -> (r: Option<(A::Output, B::Output)>) {
        let x = self.first.update(value);
        let y = self.second.update(value);
        match (x, y) {
            (Some(a), Some(b)) => Some((a, b)),
            _ => None,
        }
    }

    fn get(&self, key: i32) -> (r: Option<(A::Output, B::Output)>) {
        let x = self.first.get(key);
        let y = self.second.get(key);
        match (x, y) {
            (Some(a), Some(b)) => Some((a, b)),
            _ => None,
        }
    }

    /// Resets both members.
    fn reset(&mut self) {
        self.first.reset();
        self.second.reset();
        assert forall|key: int| #[trigger] self.lookup(key) is None by {
            assert(self.first().lookup(key) is None);
        }
    }
}

/// How many outputs an indicator with warmup `w` has produced after `n` inputs.
pub open spec fn outputs_after(n: nat, w: nat) -> nat {
    if n >= w {
        (n - w + 1) as nat
    } else {
        0
    }
}

/// Two indicators in series: every output of the first is the input of the
/// second, and the output of the second is the output of the chain.
///
/// The second indicator starts once the first is ready, so the chain's warmup
/// is the sum of the two warmups less one.
pub struct Chain<A, B> {
    first: A,
    second: B,
}

impl<A: Indicator, B: Indicator<Input = A::Output>> Chain<A, B> {
    /// The indicator that takes the chain's inputs.
    pub closed spec fn first(&self) -> A {
        self.first
    }

    /// The indicator that takes the first one's outputs.
    pub closed spec fn second(&self) -> B {
        self.second
    }

    /// Chains two indicators that have taken no input yet.
    pub fn new(first: A, second: B) -> (r: Self)
        requires
            first.wf(),
            second.wf(),
            first.seen() == 0,
            second.seen() == 0,
            first.warmup() >= 1,
            second.warmup() >= 1,
            second.lookup(0) is None,
        ensures
            r.wf(),
            r.first() == first,
            r.second() == second,
    {
        Chain { first, second }
    }
}

impl<A: Indicator, B: Indicator<Input = A::Output>> Indicator for Chain<A, B> {
    type Input = A::Input;

    type Output = B::Output;

    open spec fn wf(&self) -> bool {
        &&& self.first().wf()
        &&& self.second().wf()
        &&& self.first().warmup() >= 1
        &&& self.second().warmup() >= 1
        &&& self.second().seen() == outputs_after(self.first().seen(), self.first().warmup())
        &&& self.second().seen() == 0 ==> self.second().lookup(0) is None
    }

    open spec fn seen(&self) -> nat {
        self.first().seen()
    }

    open spec fn warmup(&self) -> nat {
        (self.first().warmup() + self.second().warmup() - 1) as nat
    }

    open spec fn steps_to(&self, value: A::Input, next: Self) -> bool {
        &&& self.first().steps_to(value, next.first())
        &&& match next.first().lookup(0) {
            Some(x) => self.second().steps_to(x, next.second()),
            None => next.second() == self.second(),
        }
    }

    open spec fn lookup(&self, key: int) -> Option<B::Output> {
        self.second().lookup(key)
    }

    /// Updates the first indicator with `value`, and the second with the
    /// first one's output when there is one.
    fn update(&mut self, value: A::Input) -> (r: Option<B::Output>) {
        match self.first.update(value) {
            Some(x) => self.second.update(x),
            None => None,
        }
    }

    fn get(&self, key: i32) -> (r: Option<B::Output>) {
        self.second.get(key)
    }

    /// Resets both stages.
    fn reset(&mut self) {
        self.first.reset();
        self.second.reset();
    }
}

/// A pair of indicators with warmups `P1` and `P2` reports nothing for its
/// first `max(P1, P2) - 1` updates; smoothing the pair's output by a further
/// stage that needs `P3 >= 2` inputs holds the first output back by `P3 - 1`
/// more updates.
pub proof fn lemma_composite_warmup<A, B, C>(c: &Chain<Pair<A, B>, C>)
    where
        A: Indicator,
        B: Indicator<Input = A::Input>,
        A::Input: Copy,
        C: Indicator<Input = (A::Output, B::Output)>,
    requires
        c.wf(),
    ensures
        c.first().warmup() >= c.first().first().warmup(),
        c.first().warmup() >= c.first().second().warmup(),
        c.first().warmup() == c.first().first().warmup()
            || c.first().warmup() == c.first().second().warmup(),
        c.warmup() == c.first().warmup() + c.second().warmup() - 1,
        c.second().warmup() >= 2 ==> c.warmup() >= c.first().warmup() + 1,
{
}

} // verus!
