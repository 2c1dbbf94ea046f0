//! The slot/epoch clock. A slot is a fixed number of seconds counted from
//! genesis; an epoch is a fixed run of slots. The clock derives its position
//! from a given wall-clock reading once, then advances one slot per tick; a
//! driver aligns the first tick to the next slot boundary using
//! [`Clock::first_tick_delay`] and may resynchronise after a stall with
//! [`Clock::catch_up`].

use vstd::arithmetic::div_mod::{
    lemma_div_basics_4, lemma_div_basics_5, lemma_fundamental_div_mod, lemma_mod_bound,
};
use vstd::prelude::*;

use crate::types::ValidatorError;

verus! {

/// Slot derived from a wall-clock reading: seconds since genesis, divided by
/// the slot duration.
pub open spec fn slot_at(genesis_time: u64, seconds_per_slot: u64, now: u64) -> int
    recommends
        now >= genesis_time,
        seconds_per_slot >= 1,
{
    (now - genesis_time) / (seconds_per_slot as int)
}

/// Epoch containing a slot.
pub open spec fn epoch_at_slot(slot: u64, slots_per_epoch: u64) -> int
    recommends
        slots_per_epoch >= 1,
{
    (slot as int) / (slots_per_epoch as int)
}

#[derive(Clone, Copy, Debug, PartialEq, Eq, Structural)]
pub struct Clock {
    pub genesis_time: u64,
    pub seconds_per_slot: u64,
    pub slots_per_epoch: u64,
    pub slot: u64,
    pub epoch: u64,
}

impl Clock {
    /// The clock's invariant: positive slot and epoch lengths, and the epoch
    /// always equal to `slot / slots_per_epoch`.
    pub open spec fn wf(self) -> bool {
        &&& self.seconds_per_slot >= 1
        &&& self.slots_per_epoch >= 1
        &&& self.epoch == epoch_at_slot(self.slot, self.slots_per_epoch)
    }

    /// Derives the clock position from a wall-clock reading. A reading before
    /// genesis is the fatal configuration error: no clock is produced.
    pub fn from_time(genesis_time: u64, seconds_per_slot: u64, slots_per_epoch: u64, now: u64) -> (r:
        Result<Clock, ValidatorError>)
        requires
            seconds_per_slot >= 1,
            slots_per_epoch >= 1,
        ensures
            r is Ok <==> now >= genesis_time,
            r matches Ok(c) ==> {
                &&& c.wf()
                &&& c.genesis_time == genesis_time
                &&& c.seconds_per_slot == seconds_per_slot
                &&& c.slots_per_epoch == slots_per_epoch
                &&& c.slot == slot_at(genesis_time, seconds_per_slot, now)
            },
            r matches Err(e) ==> e == ValidatorError::BeforeGenesis,
    {
        if now < genesis_time {
            return Err(ValidatorError::BeforeGenesis);
        }
        let slot = (now - genesis_time) / seconds_per_slot;
        let epoch = slot / slots_per_epoch;
        Ok(Clock { genesis_time, seconds_per_slot, slots_per_epoch, slot, epoch })
    }

    /// Seconds until the next slot boundary. A driver started mid-slot waits
    /// this long before its first tick, so every tick lands on a boundary; on
    /// a boundary the full slot duration is returned.
    pub fn first_tick_delay(&self, now: u64) -> (d: u64)
        requires
            self.wf(),
            now >= self.genesis_time,
            self.slot == slot_at(self.genesis_time, self.seconds_per_slot, now),
        ensures
            1 <= d <= self.seconds_per_slot,
            self.genesis_time + (self.slot + 1) * self.seconds_per_slot == now + d,
    {
        proof {
            let e = now - self.genesis_time;
            let s = self.seconds_per_slot as int;
            lemma_fundamental_div_mod(e, s);
            lemma_mod_bound(e, s);
            assert((self.slot + 1) * s == self.slot * s + s) by (nonlinear_arith);
            assert(self.slot * s == e - e % s) by {
                assert(self.slot == e / s);
                assert((e / s) * s == s * (e / s)) by (nonlinear_arith);
            }
        }
        let next_boundary: u128 = (self.slot as u128 + 1) * (self.seconds_per_slot as u128)
            + self.genesis_time as u128;
        (next_boundary - now as u128) as u64
    }

    /// One tick: the slot advances by exactly one and the epoch is recomputed;
    /// the result reports whether an epoch boundary was crossed.
    pub fn tick(&mut self) -> (epoch_changed: bool)
        requires
            old(self).wf(),
            old(self).slot < u64::MAX,
        ensures
            final(self).wf(),
            final(self).slot == old(self).slot + 1,
            final(self).epoch == epoch_at_slot(final(self).slot, final(self).slots_per_epoch),
            epoch_changed == (final(self).epoch != old(self).epoch),
            final(self).genesis_time == old(self).genesis_time,
            final(self).seconds_per_slot == old(self).seconds_per_slot,
            final(self).slots_per_epoch == old(self).slots_per_epoch,
            *final(self) == tick_spec(*old(self)),
    {
        self.slot = self.slot + 1;
        let new_epoch = self.slot / self.slots_per_epoch;
        proof {
            lemma_div_basics_4(self.slot as int, self.slots_per_epoch as int);
            lemma_div_basics_5(self.slot as int, self.slots_per_epoch as int);
        }
        let epoch_changed = new_epoch != self.epoch;
        self.epoch = new_epoch;
        epoch_changed
    }

    /// Resynchronises a stalled clock to a later wall-clock reading in one
    /// step: the slot jumps directly to the derived slot (never backwards),
    /// coalescing however many boundaries were crossed into a single catch-up.
    pub fn catch_up(&mut self, now: u64) -> (epoch_changed: bool)
        requires
            old(self).wf(),
            now >= old(self).genesis_time,
        ensures
            final(self).wf(),
            final(self).slot == if slot_at(old(self).genesis_time, old(self).seconds_per_slot, now)
                > old(self).slot {
                slot_at(old(self).genesis_time, old(self).seconds_per_slot, now)
            } else {
                old(self).slot as int
            },
            epoch_changed == (final(self).epoch != old(self).epoch),
            final(self).genesis_time == old(self).genesis_time,
            final(self).seconds_per_slot == old(self).seconds_per_slot,
            final(self).slots_per_epoch == old(self).slots_per_epoch,
    {
        let derived = (now - self.genesis_time) / self.seconds_per_slot;
        if derived > self.slot {
            self.slot = derived;
        }
        let new_epoch = self.slot / self.slots_per_epoch;
        let epoch_changed = new_epoch != self.epoch;
        self.epoch = new_epoch;
        epoch_changed
    }
}

/// The clock after one tick.
pub open spec fn tick_spec(c: Clock) -> Clock
    recommends
        c.slot < u64::MAX,
        c.slots_per_epoch >= 1,
{
    let slot = (c.slot + 1) as u64;
    Clock {
        genesis_time: c.genesis_time,
        seconds_per_slot: c.seconds_per_slot,
        slots_per_epoch: c.slots_per_epoch,
        slot,
        epoch: (slot as int / c.slots_per_epoch as int) as u64,
    }
}

/// The clock after `n` ticks.
pub open spec fn ticks_spec(c: Clock, n: nat) -> Clock
    decreases n,
{
    if n == 0 {
        c
    } else {
        tick_spec(ticks_spec(c, (n - 1) as nat))
    }
}

/// Law: over any sequence of ticks the slot advances by exactly one per tick
/// (so `n` ticks advance it by exactly `n`), the configuration never changes,
/// and the epoch always equals `slot / slots_per_epoch`.
pub proof fn lemma_ticks(c: Clock, n: nat)
    requires
        c.wf(),
        c.slot + n <= u64::MAX,
    ensures
        ticks_spec(c, n).wf(),
        ticks_spec(c, n).slot == c.slot + n,
        ticks_spec(c, n).genesis_time == c.genesis_time,
        ticks_spec(c, n).seconds_per_slot == c.seconds_per_slot,
        ticks_spec(c, n).slots_per_epoch == c.slots_per_epoch,
    decreases n,
{
    if n > 0 {
        lemma_ticks(c, (n - 1) as nat);
        let prev = ticks_spec(c, (n - 1) as nat);
        let next = tick_spec(prev);
        assert(next.slot == prev.slot + 1);
        assert(next.epoch == epoch_at_slot(next.slot, next.slots_per_epoch)) by {
            lemma_div_basics_4(next.slot as int, next.slots_per_epoch as int);
            lemma_div_basics_5(next.slot as int, next.slots_per_epoch as int);
        }
    }
}

} // verus!
