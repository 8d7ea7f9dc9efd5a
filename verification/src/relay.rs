//! A model of the bidirectional relay.
//!
//! The relay phase runs two copy loops at once: client bytes towards
//! the overlay, overlay bytes towards the client. The two directions
//! share no mutable state, neither is ever cancelled for the other,
//! and each runs to its own end of stream. This module models the two
//! loops byte by byte: whichever way the scheduler interleaves
//! [`Relay::step_up`] and [`Relay::step_down`], a step of one
//! direction leaves the other untouched, and once both directions are
//! finished everything fed in has come out on the opposite side.

use vstd::prelude::*;

verus! {

/// The two copy directions of one connection's relay: `up` carries
/// client bytes towards the overlay, `down` carries overlay bytes
/// towards the client.
pub struct Relay {
    /// Bytes the client feeds in.
    pub up_src: Vec<u8>,
    /// How many client bytes were copied so far.
    pub up_done: usize,
    /// Client bytes delivered to the overlay side.
    pub up_out: Vec<u8>,
    /// Bytes the destination feeds in.
    pub down_src: Vec<u8>,
    /// How many destination bytes were copied so far.
    pub down_done: usize,
    /// Destination bytes delivered to the client side.
    pub down_out: Vec<u8>,
}

impl Relay {
    /// What both copy loops keep true at every step: each side has
    /// delivered exactly the prefix of its source it has consumed.
    pub open spec fn inv(self) -> bool {
        &&& self.up_done <= self.up_src@.len()
        &&& self.up_out@ == self.up_src@.take(self.up_done as int)
        &&& self.down_done <= self.down_src@.len()
        &&& self.down_out@ == self.down_src@.take(self.down_done as int)
    }

    /// The upward direction has reached its end of stream.
    pub open spec fn up_finished(self) -> bool {
        self.up_done == self.up_src@.len()
    }

    /// The downward direction has reached its end of stream.
    pub open spec fn down_finished(self) -> bool {
        self.down_done == self.down_src@.len()
    }

    /// A relay over the bytes each side will feed in; nothing has
    /// been copied yet.
    pub fn new(up_src: Vec<u8>, down_src: Vec<u8>) -> (r: Relay)
        ensures
            r.inv(),
            r.up_src == up_src,
            r.down_src == down_src,
            r.up_done == 0,
            r.down_done == 0,
    {
        let r = Relay {
            up_src,
            up_done: 0,
            up_out: Vec::new(),
            down_src,
            down_done: 0,
            down_out: Vec::new(),
        };
        proof {
            assert(r.up_out@ =~= r.up_src@.take(0));
            assert(r.down_out@ =~= r.down_src@.take(0));
        }
        r
    }

    /// Copies one client byte towards the overlay, if one is left.
    /// The downward direction is not touched in any way.
    pub fn step_up(&mut self) -> (progressed: bool)
        requires
            old(self).inv(),
        ensures
            final(self).inv(),
            progressed == !old(self).up_finished(),
            final(self).up_src == old(self).up_src,
            final(self).up_done == if progressed {
                old(self).up_done + 1
            } else {
                old(self).up_done as int
            },
            final(self).down_src == old(self).down_src,
            final(self).down_done == old(self).down_done,
            final(self).down_out == old(self).down_out,
    {
        if self.up_done < self.up_src.len() {
            let b = self.up_src[self.up_done];
            self.up_out.push(b);
            self.up_done = self.up_done + 1;
            proof {
                assert(self.up_out@ =~= self.up_src@.take(self.up_done as int));
            }
            true
        } else {
            false
        }
    }

    /// Copies one destination byte towards the client, if one is
    /// left. The upward direction is not touched in any way.
    pub fn step_down(&mut self) -> (progressed: bool)
        requires
            old(self).inv(),
        ensures
            final(self).inv(),
            progressed == !old(self).down_finished(),
            final(self).down_src == old(self).down_src,
            final(self).down_done == if progressed {
                old(self).down_done + 1
            } else {
                old(self).down_done as int
            },
            final(self).up_src == old(self).up_src,
            final(self).up_done == old(self).up_done,
            final(self).up_out == old(self).up_out,
    {
        if self.down_done < self.down_src.len() {
            let b = self.down_src[self.down_done];
            self.down_out.push(b);
            self.down_done = self.down_done + 1;
            proof {
                assert(self.down_out@ =~= self.down_src@.take(self.down_done as int));
            }
            true
        } else {
            false
        }
    }

    /// How many bytes each direction has delivered.
    pub fn progress(&self) -> (r: (usize, usize))
        ensures
            r.0 == self.up_done,
            r.1 == self.down_done,
    {
        (self.up_done, self.down_done)
    }
}

/// Once both directions have run to their end of stream — in whatever
/// interleaving — every byte fed in on either side has been delivered
/// to the opposite side, unchanged and in order.
pub proof fn lemma_relay_delivers_all(r: Relay)
    requires
        r.inv(),
        r.up_finished(),
        r.down_finished(),
    ensures
        r.up_out@ == r.up_src@,
        r.down_out@ == r.down_src@,
{
    assert(r.up_out@ =~= r.up_src@);
    assert(r.down_out@ =~= r.down_src@);
}

} // verus!
