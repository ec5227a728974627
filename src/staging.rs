use vstd::prelude::*;

verus! {

/// The slot that frame `k` is written into, in a pool of `n` slots.
pub open spec fn slot_of_frame(k: nat, n: nat) -> nat
    recommends
        n > 0,
{
    k % n
}

/// The slot that frame `k` flushes to the texture, in a pool of `n` slots:
/// the one written `n - 1` frames before, once there is one.
pub open spec fn flushed_in_frame(k: nat, n: nat) -> Option<nat>
    recommends
        n > 0,
{
    if k + 1 >= n {
        Some(slot_of_frame((k + 1 - n) as nat, n))
    } else {
        None
    }
}

/// The rotation of staging slots that carry pixel data to the texture.
///
/// With one slot, a frame writes the slot and flushes it at once: the
/// upload waits for the copy. With two, frame `k` writes slot `k % 2` and
/// flushes the slot that frame `k - 1` wrote, so the copy into one slot runs
/// while the texture still reads from the other.
pub struct StagingPool {
    slots: usize,
    next: usize,
    pending: Option<usize>,
    frames: Ghost<nat>,
}

impl StagingPool {
    /// The number of slots.
    pub closed spec fn size(&self) -> nat {
        self.slots as nat
    }

    /// The number of frames committed since the pool was allocated.
    pub closed spec fn frame(&self) -> nat {
        self.frames@
    }

    pub closed spec fn wf(&self) -> bool {
        &&& 1 <= self.slots <= 2
        &&& self.next as nat == slot_of_frame(self.frames@, self.slots as nat)
        &&& self.slots == 1 ==> self.pending is None
        &&& self.slots == 2 ==> (self.pending == if self.frames@ >= 1 {
            Some(slot_of_frame((self.frames@ - 1) as nat, 2) as usize)
        } else {
            None::<usize>
        })
    }

    /// A pool of `slots` slots, none written yet.
    pub fn new(slots: usize) -> (r: StagingPool)
        requires
            1 <= slots <= 2,
        ensures
            r.wf(),
            r.size() == slots,
            r.frame() == 0,
    {
        StagingPool { slots, next: 0, pending: None, frames: Ghost(0) }
    }

    /// The number of slots.
    pub fn slot_count(&self) -> (r: usize)
        requires
            self.wf(),
        ensures
            r == self.size(),
            1 <= r <= 2,
    {
        self.slots
    }

    /// The slot that the current frame copies its pixels into.
    pub fn acquire_writable(&self) -> (r: usize)
        requires
            self.wf(),
        ensures
            r == slot_of_frame(self.frame(), self.size()),
            r < self.size(),
    {
        self.next
    }

    /// Ends the current frame, whose pixels were copied into the writable
    /// slot: returns the slot to upload to the texture now, if any, and
    /// moves the rotation on by one.
    pub fn flush(&mut self) -> (r: Option<usize>)
        requires
            old(self).wf(),
        ensures
            final(self).wf(),
            final(self).size() == old(self).size(),
            final(self).frame() == old(self).frame() + 1,
            r matches Some(s) ==> s < old(self).size(),
            r == match flushed_in_frame(old(self).frame(), old(self).size()) {
                Some(s) => Some(s as usize),
                None => None::<usize>,
            },
    {
        let written = self.next;
        let r = if self.slots == 1 {
            Some(written)
        } else {
            self.pending
        };
        proof {
            let k = self.frames@;
            if self.slots == 2 && k >= 1 {
                assert((k + 1 - 2) as nat == (k - 1) as nat);
            }
        }
        self.pending = if self.slots == 2 {
            Some(written)
        } else {
            None
        };
        self.next = if written + 1 == self.slots {
            0
        } else {
            written + 1
        };
        self.frames = Ghost(self.frames@ + 1);
        proof {
            let k = old(self).frames@;
            let n = self.slots as nat;
            lemma_next_slot(k, n);
        }
        r
    }
}

proof fn lemma_next_slot(k: nat, n: nat)
    requires
        1 <= n <= 2,
    ensures
        slot_of_frame(k + 1, n) == if slot_of_frame(k, n) + 1 == n {
            0
        } else {
            slot_of_frame(k, n) + 1
        },
        ((k + 1) - 1) as nat == k,
{
    if n == 2 {
        assert((k + 1) % 2 == if k % 2 + 1 == 2 { 0 } else { k % 2 + 1 }) by (nonlinear_arith)
            requires n == 2;
    }
}

/// In a pool of `n` slots the slot written cycles with period `n`; with two
/// slots, the slot written in frame `k` is the one flushed in frame `k + 1`.
pub proof fn lemma_staging_rotation(n: nat, k: nat)
    requires
        1 <= n <= 2,
    ensures
        slot_of_frame(k + n, n) == slot_of_frame(k, n),
        slot_of_frame(k, n) < n,
        n == 2 ==> flushed_in_frame(k + 1, n) == Some(slot_of_frame(k, n)),
        n == 1 ==> flushed_in_frame(k, n) == Some(slot_of_frame(k, n)),
{
    assert((k + n) % n == k % n) by (nonlinear_arith)
        requires
            1 <= n <= 2,
    ;
    if n == 2 {
        assert(((k + 1 + 1 - n) as nat) == k);
    }
}

} // verus!
