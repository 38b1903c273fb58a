use vstd::prelude::*;

verus! {

/// Processor cycles between two ticks of the 64 kHz clock.
pub const CLOCK_TICK_CYCLE_64KHZ: u32 = 16;

/// Ticks of the 64 kHz clock in one second.
pub const TICKS_PER_SECOND: u32 = 64000;

/// Nanoseconds between two ticks of the 64 kHz clock.
pub const CLOCK_TICK_CYCLE_64KHZ_NANOSEC: u64 = 15625;

/// Divides the cycles that instructions take into ticks of a fixed period.
/// The cycles left over after the last tick are kept for the next one.
pub struct TickClock {
    period: u32,
    pending: u32,
}

/// The cycles of a run of instructions, added up.
pub open spec fn spec_total_cycles(cycles: Seq<u8>) -> nat
    decreases cycles.len(),
{
    if cycles.len() == 0 {
        0
    } else {
        spec_total_cycles(cycles.drop_last()) + cycles.last() as nat
    }
}

/// The cycles that a clock started at zero holds back after a run of
/// instructions, each handed to it in turn.
pub open spec fn spec_pending_after(period: nat, cycles: Seq<u8>) -> nat
    decreases cycles.len(),
{
    if cycles.len() == 0 {
        0
    } else {
        (spec_pending_after(period, cycles.drop_last()) + cycles.last() as nat) % period
    }
}

/// The ticks that a clock started at zero has asked for after a run of
/// instructions, each handed to it in turn.
pub open spec fn spec_ticks_after(period: nat, cycles: Seq<u8>) -> nat
    decreases cycles.len(),
{
    if cycles.len() == 0 {
        0
    } else {
        spec_ticks_after(period, cycles.drop_last()) + (spec_pending_after(
            period,
            cycles.drop_last(),
        ) + cycles.last() as nat) / period
    }
}

impl TickClock {
    #[verifier::type_invariant]
    spec fn well_formed(self) -> bool {
        0 < self.period && self.pending < self.period
    }

    /// Cycles from one tick to the next.
    pub closed spec fn spec_period(self) -> nat {
        self.period as nat
    }

    /// Cycles taken since the last tick that was asked for.
    pub closed spec fn spec_pending(self) -> nat {
        self.pending as nat
    }

    /// A clock with the given period and no cycles pending; `None` for a
    /// period of zero.
    pub fn new(period: u32) -> (clock: Option<TickClock>)
        ensures
            clock is Some <==> period > 0,
            clock matches Some(c) ==> c.spec_period() == period && c.spec_pending() == 0,
    {
        if period == 0 {
            None
        } else {
            Some(TickClock { period, pending: 0 })
        }
    }

    /// The clock of the 64 kHz tick: a period of sixteen cycles.
    pub fn standard() -> (clock: TickClock)
        ensures
            clock.spec_period() == CLOCK_TICK_CYCLE_64KHZ,
            clock.spec_pending() == 0,
    {
        TickClock { period: CLOCK_TICK_CYCLE_64KHZ, pending: 0 }
    }

    pub fn period(&self) -> (period: u32)
        ensures
            period == self.spec_period(),
            period > 0,
    {
        proof {
            use_type_invariant(self);
        }
        self.period
    }

    pub fn pending(&self) -> (pending: u32)
        ensures
            pending == self.spec_pending(),
            pending < self.spec_period(),
    {
        proof {
            use_type_invariant(self);
        }
        self.pending
    }

    /// Takes in the cycles of one instruction and returns how many ticks are
    /// due now: one for each full period reached. What is left of the cycles
    /// stays pending.
    pub fn advance(&mut self, cycles: u8) -> (ticks: u32)
        ensures
            final(self).spec_period() == old(self).spec_period(),
            ticks == (old(self).spec_pending() + cycles as nat) / old(self).spec_period(),
            final(self).spec_pending() == (old(self).spec_pending() + cycles as nat) % old(
                self,
            ).spec_period(),
        no_unwind
    {
        proof {
            use_type_invariant(&*self);
        }
        let sum: u64 = self.pending as u64 + cycles as u64;
        let period: u64 = self.period as u64;
        let ticks: u64 = sum / period;
        let rest: u64 = sum % period;
        assert(ticks <= 256) by (nonlinear_arith)
            requires
                ticks == sum / period,
                period > 0,
                sum < period + 256,
        ;
        self.pending = rest as u32;
        ticks as u32
    }
}

/// However the cycles are spread over the instructions, the ticks asked for
/// are the total of the cycles divided by the period, rounded down, and the
/// remainder stays pending.
pub proof fn lemma_tick_accounting(period: nat, cycles: Seq<u8>)
    requires
        period > 0,
    ensures
        spec_ticks_after(period, cycles) == spec_total_cycles(cycles) / period,
        spec_pending_after(period, cycles) == spec_total_cycles(cycles) % period,
    decreases cycles.len(),
{
    if cycles.len() > 0 {
        lemma_tick_accounting(period, cycles.drop_last());
        let before = spec_total_cycles(cycles.drop_last());
        let last = cycles.last() as nat;
        lemma_carry(before, last, period);
    } else {
        assert(0nat % period == 0 && 0nat / period == 0) by (nonlinear_arith)
            requires
                period > 0,
        ;
    }
}

/// Two runs of instructions with the same total of cycles ask for the same
/// number of ticks.
pub proof fn lemma_batching_is_irrelevant(period: nat, first: Seq<u8>, second: Seq<u8>)
    requires
        period > 0,
        spec_total_cycles(first) == spec_total_cycles(second),
    ensures
        spec_ticks_after(period, first) == spec_ticks_after(period, second),
        spec_pending_after(period, first) == spec_pending_after(period, second),
{
    lemma_tick_accounting(period, first);
    lemma_tick_accounting(period, second);
}

proof fn lemma_carry(before: nat, last: nat, period: nat)
    requires
        0 < period,
    ensures
        before / period + (before % period + last) / period == (before + last) / period,
        (before % period + last) % period == (before + last) % period,
{
    let q = before as int / period as int;
    let r = before as int % period as int;
    let q2 = (r + last) / period as int;
    let r2 = (r + last) % period as int;
    vstd::arithmetic::div_mod::lemma_fundamental_div_mod(before as int, period as int);
    vstd::arithmetic::div_mod::lemma_fundamental_div_mod(r + last, period as int);
    vstd::arithmetic::div_mod::lemma_mod_pos_bound(before as int, period as int);
    vstd::arithmetic::div_mod::lemma_mod_pos_bound(r + last, period as int);
    assert(before + last == (q + q2) * period + r2) by (nonlinear_arith)
        requires
            before == period * q + r,
            r + last == period * q2 + r2,
    ;
    vstd::arithmetic::div_mod::lemma_fundamental_div_mod_converse(
        (before + last) as int,
        period as int,
        q + q2,
        r2,
    );
}

} // verus!
