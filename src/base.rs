use vstd::prelude::*;
use crate::indicator::{Indicator, recorded};

verus! {

/// Slot of the value written `back` updates before the one in slot `pos`, in a
/// ring of `len` slots.
spec fn ring_index(pos: int, len: int, back: int) -> int {
    if back <= pos {
        pos - back
    } else {
        pos + len - back
    }
}

/// A ring buffer that keeps the last `N` values written to it.
///
/// The slots are allocated once, at construction; the buffer fills them in
/// order and, once all `N` are used, overwrites the oldest.
#[derive(Clone)]
pub struct BaseIndicator<T, const N: usize> {
    /// Slot of the newest value, when there is one.
    pos: usize,
    /// Storage; its length grows to `N` and stays there.
    data: Vec<T>,
    /// Every value written since construction or the last reset, oldest first.
    written: Ghost<Seq<T>>,
}

impl<T: Copy, const N: usize> BaseIndicator<T, N> {
    /// Every value written since construction or the last reset, oldest first.
    pub closed spec fn history(&self) -> Seq<T> {
        self.written@
    }

    /// Number of values the buffer holds now: all written so far, up to `N`.
    pub open spec fn retained(&self) -> nat {
        if self.history().len() < N {
            self.history().len()
        } else {
            N as nat
        }
    }

    /// Creates an empty buffer with room for `N` values.
    pub fn new() -> (r: Self)
        requires
            N > 0,
        ensures
            r.wf(),
            r.history() == Seq::<T>::empty(),
    {
        BaseIndicator { pos: 0, data: Vec::with_capacity(N), written: Ghost(Seq::empty()) }
    }
}

impl<T: Copy, const N: usize> Indicator for BaseIndicator<T, N> {
    type Input = T;

    type Output = T;

    closed spec fn wf(&self) -> bool {
        let len = self.data@.len();
        let hist = self.written@;
        &&& N > 0
        &&& len == self.retained()
        &&& len > 0 ==> self.pos < len
        &&& len < N ==> self.pos + 1 == len || len == 0
        &&& forall|back: int|
            0 <= back < len ==> #[trigger] self.data@[ring_index(self.pos as int, len as int, back)]
                == hist[hist.len() - 1 - back]
    }

    open spec fn seen(&self) -> nat {
        self.history().len()
    }

    open spec fn warmup(&self) -> nat {
        1
    }

    open spec fn steps_to(&self, value: T, next: Self) -> bool {
        next.history() == self.history().push(value)
    }

    open spec fn lookup(&self, key: int) -> Option<T> {
        recorded(self.history(), N as nat, key)
    }

    /// Writes `value` as the newest entry, evicting the oldest one when all
    /// `N` slots are in use, and returns it.
    fn update(&mut self, value: T) -> (r: Option<T>)
        ensures
            final(self).history() == old(self).history().push(value),
            r == Some(value),
    {
        let len = self.data.len();
        let ghost old_data = self.data@;
        let ghost old_pos = self.pos as int;
        let ghost old_hist = self.written@;
        if len < N {
            self.data.push(value);
            self.pos = len;
        } else {
            self.pos = if self.pos + 1 == N { 0 } else { self.pos + 1 };
            self.data.set(self.pos, value);
        }
        self.written = Ghost(self.written@.push(value));
        proof {
            let hist = self.written@;
            let nlen = self.data@.len() as int;
            assert forall|back: int| 0 <= back < nlen implies
                #[trigger] self.data@[ring_index(self.pos as int, nlen, back)]
                    == hist[hist.len() - 1 - back] by {
                if back > 0 {
                    assert(ring_index(self.pos as int, nlen, back)
                        == ring_index(old_pos, len as int, back - 1));
                    assert(old_data[ring_index(old_pos, len as int, back - 1)]
                        == old_hist[old_hist.len() - 1 - (back - 1)]);
                }
            }
        }
        Some(value)
    }

    /// The value written `-key` updates ago; `None` for `key > 0`, for
    /// `-key >= N`, and for `-key` at or beyond the number of values written.
    fn get(&self, key: i32) -> (r: Option<T>) {
        if key > 0 {
            return None;
        }
        let len = self.data.len();
        let back = (0i64 - key as i64) as u32 as usize;
        if back >= len {
            return None;
        }
        let idx = if back <= self.pos { self.pos - back } else { self.pos + (len - back) };
        proof {
            assert(idx == ring_index(self.pos as int, len as int, back as int));
        }
        Some(self.data[idx])
    }

    /// Forgets every value written; the capacity stays.
    fn reset(&mut self)
        ensures
            final(self).history() == Seq::<T>::empty(),
    {
        self.data.clear();
        self.pos = 0;
        self.written = Ghost(Seq::empty());
    }
}

/// A lookup succeeds exactly for `key` in `(-k, 0]`, where `k` is the number of
/// values written while at most `N` were written, and `N` from then on.
pub proof fn lemma_buffer_bounds<T: Copy, const N: usize>(b: &BaseIndicator<T, N>, key: int)
    requires
        b.wf(),
    ensures
        b.seen() <= N ==> (b.lookup(key) is Some <==> -(b.seen() as int) < key <= 0),
        b.seen() >= N ==> (b.lookup(key) is Some <==> -(N as int) < key <= 0),
{
}

/// After `N + 1` writes the newest slot holds the last value written, index
/// `-(N - 1)` holds the second value written, and the first one is gone.
pub proof fn lemma_overwrite<T: Copy, const N: usize>(b: &BaseIndicator<T, N>)
    requires
        b.wf(),
        b.seen() == N + 1,
    ensures
        b.lookup(0) == Some(b.history()[N as int]),
        b.lookup(-(N - 1)) == Some(b.history()[1]),
        b.lookup(-(N as int)) is None,
{
}

/// Two buffers that took the same values since their last reset answer every
/// lookup alike. Since `reset` empties the history and `update` appends to
/// it, replaying an input sequence after a reset reproduces the first pass.
pub proof fn lemma_replay<T: Copy, const N: usize>(a: &BaseIndicator<T, N>, b: &BaseIndicator<T, N>)
    requires
        a.wf(),
        b.wf(),
        a.history() == b.history(),
    ensures
        forall|key: int| #[trigger] a.lookup(key) == b.lookup(key),
{
}

} // verus!
