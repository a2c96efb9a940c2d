//! A growable multi-producer multi-consumer channel.
//!
//! The channel is a chain of rings.  Each ring is a circular buffer
//! of optional cells with a dequeue pointer (`start`), an enqueue
//! pointer (`finish`), and a `grown` cell that, once occupied, names
//! the ring's successor.  A send walks to the end of the chain and
//! fills the slot at `finish`; when the ring is saturated it creates
//! a successor of twice the capacity and installs it in `grown`.  A
//! receive drains the oldest ring first and follows `grown` once the
//! ring is empty.  Growth is monotone: once a ring has grown, no send
//! ever fills one of its slots again.
//!
//! Delivery is exact: the channel behaves as a queue, every send
//! appends one value and every receive removes the oldest one, so a
//! send is matched by at most one receive with the same payload and
//! the number of successful receives never exceeds the number of
//! successful sends.

use vstd::prelude::*;

use crate::shared_option::SharedOption;
use crate::shared_option::OCCUPIED;
use crate::shared_option::UNOCCUPIED;

verus! {

/// How one send reshapes the chain, ring by ring: either the last
/// ring took the value at its tail, or a fresh ring holding only the
/// value was appended behind it.  Every other ring — in particular
/// every ring whose `grown` cell is occupied — keeps its values
/// exactly as they were.
pub open spec fn spec_send_shape<T>(
    old_rings: Seq<Seq<T>>,
    new_rings: Seq<Seq<T>>,
    data: T,
) -> bool {
    ||| new_rings == old_rings.update(old_rings.len() - 1, old_rings.last().push(data))
    ||| new_rings == old_rings.push(seq![data])
}

/// One generation of the channel: a circular buffer with a link to
/// its successor, the whole chain reachable from it.
pub struct SharedChannel<T> {
    buffer: Vec<SharedOption<T>>,
    start: usize,
    finish: usize,
    grown: Option<Box<SharedChannel<T>>>,
}

impl<T> SharedChannel<T> {
    /// Whether this ring has grown a successor.
    pub closed spec fn spec_has_grown(self) -> bool {
        self.grown is Some
    }

    /// The successor ring.
    pub closed spec fn spec_grown_ring(self) -> SharedChannel<T>
        recommends
            self.spec_has_grown(),
    {
        *self.grown->Some_0
    }

    /// How many rings the chain holds from here.
    pub closed spec fn spec_depth(self) -> nat
        decreases self,
    {
        if self.grown is Some {
            1 + (*self.grown->Some_0).spec_depth()
        } else {
            1
        }
    }

    /// The number of slots in this ring.
    pub closed spec fn spec_capacity(self) -> nat {
        self.buffer@.len()
    }

    /// The dequeue pointer.
    pub closed spec fn spec_start(self) -> nat {
        self.start as nat
    }

    /// The enqueue pointer.
    pub closed spec fn spec_finish(self) -> nat {
        self.finish as nat
    }

    /// The buffer slot that queue position `idx` occupies.  Under the
    /// ring's well-formedness every live position lies within one
    /// wrap, so the circular index is a single conditional
    /// subtraction.
    pub closed spec fn spec_slot(self, idx: int) -> int {
        if idx < self.buffer@.len() as int {
            idx
        } else {
            idx - self.buffer@.len()
        }
    }

    /// Whether buffer slot `j` belongs to the live window
    /// `[start, finish)` of queue positions, written without the
    /// circular indexing.
    pub closed spec fn spec_slot_live(self, j: int) -> bool {
        ||| (self.start <= j < self.finish && j < self.buffer@.len() as int)
        ||| j + self.buffer@.len() < self.finish
    }

    /// The values queued in this ring alone, oldest first.
    pub closed spec fn spec_local_contents(self) -> Seq<T> {
        Seq::new(
            (self.finish - self.start) as nat,
            |i: int| self.buffer@[self.spec_slot(self.start + i)].data->Some_0,
        )
    }

    /// The values queued in the whole chain, oldest first.
    pub closed spec fn spec_contents(self) -> Seq<T>
        decreases self,
    {
        self.spec_local_contents() + if self.grown is Some {
            (*self.grown->Some_0).spec_contents()
        } else {
            Seq::empty()
        }
    }

    /// The values queued in each ring of the chain taken alone,
    /// front ring first.
    pub closed spec fn spec_rings(self) -> Seq<Seq<T>>
        decreases self,
    {
        seq![self.spec_local_contents()] + if self.grown is Some {
            (*self.grown->Some_0).spec_rings()
        } else {
            Seq::empty()
        }
    }

    /// Well-formedness of the whole chain: each ring's window fits
    /// one wrap of its buffer, exactly the slots in the window are
    /// occupied, and pointers stay clear of overflow.
    pub closed spec fn ring_wf(self) -> bool
        decreases self,
    {
        &&& self.buffer@.len() >= 1
        &&& self.start < self.buffer@.len()
        &&& self.start <= self.finish
        &&& self.finish <= self.start + self.buffer@.len()
        &&& 2 * self.buffer@.len() <= usize::MAX
        &&& (forall|j: int| 0 <= j < self.buffer@.len() ==> (#[trigger] self.buffer@[j]).wf())
        &&& (forall|j: int|
            0 <= j < self.buffer@.len() ==> ((#[trigger] self.buffer@[j]).spec_state() == OCCUPIED
                <==> self.spec_slot_live(j)))
        &&& (self.grown is Some ==> (*self.grown->Some_0).ring_wf())
    }

    /// A fresh ring of the given capacity with nothing queued;
    /// `None` exactly when the capacity cannot leave headroom for the
    /// enqueue pointer.
    pub fn try_new(capacity: usize) -> (r: Option<SharedChannel<T>>)
        requires
            1 <= capacity,
        ensures
            (r is Some) <==> 2 * capacity <= usize::MAX,
            r matches Some(c) ==> c.ring_wf() && c.spec_contents() == Seq::<T>::empty()
                && c.spec_has_grown() == false && c.spec_start() == 0 && c.spec_finish() == 0
                && c.spec_capacity() == capacity,
    {
        if capacity > usize::MAX / 2 {
            return None;
        }
        let mut buffer: Vec<SharedOption<T>> = Vec::new();
        let mut i: usize = 0;
        while i < capacity
            invariant
                i <= capacity,
                buffer@.len() == i,
                forall|j: int|
                    0 <= j < i ==> (#[trigger] buffer@[j]).wf() && buffer@[j].spec_state()
                        == UNOCCUPIED,
            decreases capacity - i,
        {
            buffer.push(SharedOption::none());
            i = i + 1;
        }
        let c = SharedChannel { buffer, start: 0, finish: 0, grown: None };
        proof {
            assert(c.spec_local_contents() =~= Seq::<T>::empty());
            assert(c.spec_contents() =~= Seq::<T>::empty());
        }
        Some(c)
    }

    /// Whether a send into the chain must succeed: the last ring has
    /// a free slot, or it can still double its capacity.
    pub open spec fn spec_send_ok(self) -> bool
        decreases self,
    {
        if self.spec_has_grown() {
            self.spec_grown_ring().spec_send_ok()
        } else if self.spec_finish() - self.spec_start() < self.spec_capacity() {
            true
        } else {
            4 * self.spec_capacity() <= usize::MAX
        }
    }

    /// Queue a value.  The value lands at the tail of the chain's
    /// last ring, growing the chain when that ring is saturated; the
    /// send fails only when the grown ring's capacity would overflow,
    /// and then hands the value back with nothing changed.  Growth is
    /// monotone: every ring that has grown keeps its values exactly
    /// as they were, so a send never targets a ring whose `grown`
    /// cell is occupied.
    pub fn try_send(&mut self, data: T) -> (r: Result<(), T>)
        requires
            old(self).ring_wf(),
        ensures
            final (self).ring_wf(),
            (r is Ok) <==> old(self).spec_send_ok(),
            r is Ok ==> final (self).spec_contents() == old(self).spec_contents().push(data),
            r matches Err(v) ==> v == data && final (self).spec_contents() == old(
                self,
            ).spec_contents(),
            r is Ok ==> spec_send_shape(old(self).spec_rings(), final (self).spec_rings(), data),
            old(self).spec_has_grown() ==> final (self).spec_local_contents() == old(
                self,
            ).spec_local_contents(),
        decreases old(self).spec_depth(),
    {
        let mut taken: Option<Box<SharedChannel<T>>> = None;
        core::mem::swap(&mut taken, &mut self.grown);
        match taken {
            Some(successor) => {
                let mut successor = successor;
                let ghost succ0 = *successor;
                let r = successor.try_send(data);
                let ghost succ1 = *successor;
                self.grown = Some(successor);
                proof {
                    assert(final (self).spec_local_contents() =~= old(
                        self,
                    ).spec_local_contents());
                    if r is Ok {
                        assert(final (self).spec_contents() =~= old(self).spec_contents().push(
                            data,
                        ));
                        let old_rings = old(self).spec_rings();
                        let new_rings = final (self).spec_rings();
                        let k = succ0.spec_rings().len() as int;
                        assert(old_rings =~= seq![old(self).spec_local_contents()]
                            + succ0.spec_rings());
                        assert(new_rings =~= seq![old(self).spec_local_contents()]
                            + succ1.spec_rings());
                        if succ1.spec_rings() == succ0.spec_rings().update(
                            k - 1,
                            succ0.spec_rings().last().push(data),
                        ) {
                            assert(new_rings =~= old_rings.update(
                                old_rings.len() - 1,
                                old_rings.last().push(data),
                            ));
                        } else {
                            assert(new_rings =~= old_rings.push(seq![data]));
                        }
                    } else {
                        assert(final (self).spec_contents() =~= old(self).spec_contents());
                    }
                }
                r
            },
            None => {
                let capacity = self.buffer.len();
                if self.finish - self.start < capacity {
                    // The circular index of the enqueue pointer; the
                    // window fits one wrap, so at most one subtraction.
                    let slot = if self.finish < capacity {
                        self.finish
                    } else {
                        self.finish - capacity
                    };
                    let res = self.buffer[slot].put(data);
                    proof {
                        assert(res is Ok);
                    }
                    self.finish = self.finish + 1;
                    proof {
                        assert(final (self).spec_local_contents() =~= old(
                            self,
                        ).spec_local_contents().push(data));
                        assert(final (self).spec_contents() =~= old(self).spec_contents().push(
                            data,
                        ));
                        assert(final (self).spec_rings() =~= old(self).spec_rings().update(
                            0,
                            old(self).spec_local_contents().push(data),
                        ));
                    }
                    Ok(())
                } else {
                    // Saturated: grow a successor of twice the
                    // capacity and queue the value there.
                    let new_capacity = match capacity.checked_mul(2) {
                        Some(c) => c,
                        None => {
                            return Err(data);
                        },
                    };
                    let successor = match SharedChannel::try_new(new_capacity) {
                        Some(c) => c,
                        None => {
                            return Err(data);
                        },
                    };
                    let mut successor = successor;
                    let ghost succ0 = successor;
                    let res = successor.buffer[0].put(data);
                    proof {
                        assert(succ0.buffer@[0].spec_state() == UNOCCUPIED);
                        assert(res is Ok);
                    }
                    successor.finish = 1;
                    proof {
                        assert(successor.buffer@ == succ0.buffer@.update(
                            0,
                            successor.buffer@[0],
                        ));
                        assert forall|j: int|
                            0 <= j < successor.buffer@.len() implies ((
                        #[trigger] successor.buffer@[j]).spec_state() == OCCUPIED
                            <==> successor.spec_slot_live(j)) by {
                            if j != 0 {
                                assert(successor.buffer@[j].spec_state() != OCCUPIED);
                            }
                        }
                        assert(successor.ring_wf());
                        assert(successor.spec_local_contents() =~= seq![data]);
                        assert(successor.spec_contents() =~= seq![data]);
                        assert(successor.spec_rings() =~= seq![seq![data]]);
                    }
                    self.grown = Some(Box::new(successor));
                    proof {
                        assert(final (self).spec_local_contents() =~= old(
                            self,
                        ).spec_local_contents());
                        assert(final (self).spec_contents() =~= old(self).spec_contents().push(
                            data,
                        ));
                        assert(final (self).spec_rings() =~= old(self).spec_rings().push(
                            seq![data],
                        ));
                    }
                    Ok(())
                }
            },
        }
    }

    /// Dequeue the oldest value in the chain, or `None`, changing the
    /// queued values not at all, when the chain is empty.
    pub fn try_recv(&mut self) -> (r: Option<T>)
        requires
            old(self).ring_wf(),
        ensures
            final (self).ring_wf(),
            (r is Some) <==> old(self).spec_contents().len() > 0,
            old(self).spec_contents().len() > 0 ==> r == Some(old(self).spec_contents()[0])
                && final (self).spec_contents() == old(self).spec_contents().drop_first(),
            old(self).spec_contents().len() == 0 ==> final (self).spec_contents() == old(
                self,
            ).spec_contents(),
        decreases old(self).spec_depth(),
    {
        let capacity = self.buffer.len();
        if self.start < self.finish {
            let taken = self.buffer[self.start].take();
            match taken {
                Some(v) => {
                    proof {
                        assert(old(self).spec_local_contents()[0] == v);
                    }
                    self.start = self.start + 1;
                    if capacity <= self.start {
                        // The whole window has wrapped: renormalize
                        // both pointers by one capacity.
                        self.start = self.start - capacity;
                        self.finish = self.finish - capacity;
                    }
                    proof {
                        assert forall|j: int|
                            0 <= j < self.buffer@.len() implies ((#[trigger] self.buffer@[j])
                            .spec_state() == OCCUPIED <==> self.spec_slot_live(j)) by {
                            if j == old(self).start as int {
                                assert(self.buffer@[j].spec_state() != OCCUPIED);
                            } else {
                                assert(self.buffer@[j] == old(self).buffer@[j]);
                            }
                        }
                        assert(final (self).spec_local_contents() =~= old(
                            self,
                        ).spec_local_contents().drop_first());
                        assert(final (self).spec_contents() =~= old(
                            self,
                        ).spec_contents().drop_first());
                    }
                    Some(v)
                },
                None => {
                    proof {
                        assert(false);
                    }
                    None
                },
            }
        } else {
            let mut taken: Option<Box<SharedChannel<T>>> = None;
            core::mem::swap(&mut taken, &mut self.grown);
            match taken {
                Some(successor) => {
                    proof {
                        assert(old(self).spec_local_contents() =~= Seq::<T>::empty());
                    }
                    *self = *successor;
                    self.try_recv()
                },
                None => {
                    proof {
                        assert(old(self).spec_contents() =~= Seq::<T>::empty());
                    }
                    None
                },
            }
        }
    }

    /// A reference to the oldest value in the chain, or `None` when
    /// the chain is empty.  Nothing changes either way.
    pub fn try_peek(&self) -> (r: Option<&T>)
        requires
            self.ring_wf(),
        ensures
            (r is Some) <==> self.spec_contents().len() > 0,
            r matches Some(x) ==> *x == self.spec_contents()[0],
        decreases self.spec_depth(),
    {
        if self.start < self.finish {
            let r = self.buffer[self.start].volatile_peek();
            proof {
                assert(r is Some);
                assert(self.spec_contents()[0] == self.spec_local_contents()[0]);
            }
            r
        } else {
            match &self.grown {
                Some(successor) => {
                    proof {
                        assert(self.spec_local_contents() =~= Seq::<T>::empty());
                    }
                    let r = successor.try_peek();
                    proof {
                        if r is Some {
                            assert(self.spec_contents()[0] == (*self.grown->Some_0)
                                .spec_contents()[0]);
                        }
                    }
                    r
                },
                None => {
                    proof {
                        assert(self.spec_contents() =~= Seq::<T>::empty());
                    }
                    None
                },
            }
        }
    }
}

} // verus!
