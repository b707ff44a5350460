//! The divider and the programmable timer.
//!
//! DIV counts up once every 256 T-cycles. TIMA, when TAC bit 2 is set,
//! counts up once every `threshold(TAC)` T-cycles; when it passes 0xFF it is
//! reloaded from TMA and the timer interrupt is requested.
use vstd::prelude::*;
use crate::data::HardwareRegister;
use crate::memory::Memory;

verus! {

/// T-cycles between two increments of DIV.
pub const DIV_PERIOD: u32 = 256;

/// The bit of IF that the timer raises.
pub const TIMER_REQUEST: u8 = 0b0000_0100;

/// Whether TAC switches TIMA on.
pub open spec fn spec_timer_enabled(tac: u8) -> bool {
    tac & 0b100 != 0
}

/// T-cycles between two increments of TIMA, as TAC bits 1..0 select.
pub open spec fn spec_threshold(tac: u8) -> u32 {
    if tac & 0b11 == 0b00 {
        1024
    } else if tac & 0b11 == 0b01 {
        16
    } else if tac & 0b11 == 0b10 {
        64
    } else {
        256
    }
}

/// TIMA after `count` increments, each reloading from `tma` when it passes
/// 0xFF.
pub open spec fn spec_tima_after(tima: u8, tma: u8, count: nat) -> u8
    decreases count,
{
    if count == 0 {
        tima
    } else {
        let before = spec_tima_after(tima, tma, (count - 1) as nat);
        if before == 0xFF {
            tma
        } else {
            (before + 1) as u8
        }
    }
}

/// Whether TIMA passes 0xFF during `count` increments.
pub open spec fn spec_tima_overflows(tima: u8, tma: u8, count: nat) -> bool
    decreases count,
{
    count > 0 && (spec_tima_overflows(tima, tma, (count - 1) as nat) || spec_tima_after(
        tima,
        tma,
        (count - 1) as nat,
    ) == 0xFF)
}

/// The two prescalers: T-cycles counted towards the next increment of DIV
/// and of TIMA.
#[derive(Clone, Copy, Debug, PartialEq, Eq)]
pub struct Timer {
    pub div_counter: u16,
    pub tima_counter: u16,
}

impl Timer {
    /// Timer and cells after `cycles` T-cycles.
    pub open spec fn spec_step(self, cells: Seq<u8>, cycles: u16) -> (Timer, Seq<u8>) {
        let div = HardwareRegister::DIV.spec_address() as int;
        let tima = HardwareRegister::TIMA.spec_address() as int;
        let tma = HardwareRegister::TMA.spec_address() as int;
        let tac = HardwareRegister::TAC.spec_address() as int;
        let requests = HardwareRegister::IF.spec_address() as int;
        let div_total = self.div_counter + cycles;
        let divided = cells.update(div, ((cells[div] + div_total / 256) % 256) as u8);
        if spec_timer_enabled(cells[tac]) {
            let threshold = spec_threshold(cells[tac]) as int;
            let tima_total = self.tima_counter + cycles;
            let count = (tima_total / threshold) as nat;
            let counted = divided.update(tima, spec_tima_after(cells[tima], cells[tma], count));
            (
                Timer {
                    div_counter: (div_total % 256) as u16,
                    tima_counter: (tima_total % threshold) as u16,
                },
                if spec_tima_overflows(cells[tima], cells[tma], count) {
                    counted.update(requests, cells[requests] | TIMER_REQUEST)
                } else {
                    counted
                },
            )
        } else {
            (Timer { div_counter: (div_total % 256) as u16, ..self }, divided)
        }
    }

    /// The cells with DIV, TIMA, TMA and TAC cleared.
    pub open spec fn spec_reset(cells: Seq<u8>) -> Seq<u8> {
        cells.update(HardwareRegister::DIV.spec_address() as int, 0).update(
            HardwareRegister::TIMA.spec_address() as int,
            0,
        ).update(HardwareRegister::TMA.spec_address() as int, 0).update(
            HardwareRegister::TAC.spec_address() as int,
            0,
        )
    }

    /// A timer with cleared prescalers; DIV, TIMA, TMA and TAC are cleared too.
    pub fn new(memory: &mut Memory) -> (timer: Self)
        ensures
            timer == (Timer { div_counter: 0, tima_counter: 0 }),
            final(memory)@ == Self::spec_reset(old(memory)@),
    {
        memory.write_hardware_register(HardwareRegister::DIV, 0x00);
        memory.write_hardware_register(HardwareRegister::TIMA, 0x00);
        memory.write_hardware_register(HardwareRegister::TMA, 0x00);
        memory.write_hardware_register(HardwareRegister::TAC, 0x00);
        Timer { div_counter: 0, tima_counter: 0 }
    }

    /// The period that TAC bits 1..0 select.
    pub fn threshold(tac: u8) -> (period: u32)
        ensures
            period == spec_threshold(tac),
            period == 16 || period == 64 || period == 256 || period == 1024,
    {
        match tac & 0b11 {
            0b00 => 1024,
            0b01 => 16,
            0b10 => 64,
            _ => 256,
        }
    }

    /// Lets `cycles` T-cycles pass: DIV and, when switched on, TIMA count up,
    /// and an overflow of TIMA reloads it from TMA and requests the timer
    /// interrupt.
    pub fn step(&mut self, cycles: u16, memory: &mut Memory)
        ensures
            (*final(self), final(memory)@) == old(self).spec_step(old(memory)@, cycles),
    {
        broadcast use crate::memory::lemma_memory_len;

        let ghost cells = memory@;
        let ghost div_total = self.div_counter + cycles;
        let ghost tima_total = self.tima_counter + cycles;
        let tac = memory.read_hardware_register(HardwareRegister::TAC);
        let timer_enabled = tac & 0b100 != 0;

        let mut div_counter: u32 = self.div_counter as u32 + cycles as u32;
        let ghost mut div_steps: int = 0;
        while div_counter >= DIV_PERIOD
            invariant
                memory@.len() == 0x10000,
                cells.len() == 0x10000,
                div_counter + 256 * div_steps == div_total,
                div_steps >= 0,
                memory@ == cells.update(
                    HardwareRegister::DIV.spec_address() as int,
                    ((cells[HardwareRegister::DIV.spec_address() as int] + div_steps) % 256) as u8,
                ),
            decreases div_counter,
        {
            div_counter -= DIV_PERIOD;
            let current_div = memory.read_hardware_register(HardwareRegister::DIV);
            memory.write_hardware_register(HardwareRegister::DIV, current_div.wrapping_add(1));
            proof {
                div_steps = div_steps + 1;
                assert(memory@ =~= cells.update(
                    HardwareRegister::DIV.spec_address() as int,
                    ((cells[HardwareRegister::DIV.spec_address() as int] + div_steps) % 256) as u8,
                ));
            }
        }
        self.div_counter = div_counter as u16;
        let ghost divided = memory@;

        if timer_enabled {
            let threshold = Self::threshold(tac);
            let mut tima_counter: u32 = self.tima_counter as u32 + cycles as u32;
            let ghost mut count: nat = 0;
            let ghost start = cells[HardwareRegister::TIMA.spec_address() as int];
            let ghost reload = cells[HardwareRegister::TMA.spec_address() as int];
            let ghost requests = cells[HardwareRegister::IF.spec_address() as int];
            proof {
                lemma_request_twice(requests);
                assert(memory@ =~= divided.update(
                    HardwareRegister::TIMA.spec_address() as int,
                    spec_tima_after(start, reload, count),
                ));
            }
            while tima_counter >= threshold
                invariant
                    memory@.len() == 0x10000,
                    divided.len() == 0x10000,
                    threshold == 16 || threshold == 64 || threshold == 256 || threshold == 1024,
                    tima_counter + threshold * count == tima_total,
                    reload == divided[HardwareRegister::TMA.spec_address() as int],
                    requests == divided[HardwareRegister::IF.spec_address() as int],
                    requests | TIMER_REQUEST | TIMER_REQUEST == requests | TIMER_REQUEST,
                    memory@ == if spec_tima_overflows(start, reload, count) {
                        divided.update(
                            HardwareRegister::TIMA.spec_address() as int,
                            spec_tima_after(start, reload, count),
                        ).update(
                            HardwareRegister::IF.spec_address() as int,
                            requests | TIMER_REQUEST,
                        )
                    } else {
                        divided.update(
                            HardwareRegister::TIMA.spec_address() as int,
                            spec_tima_after(start, reload, count),
                        )
                    },
                decreases tima_counter,
            {
                tima_counter -= threshold;
                let mut tima = memory.read_hardware_register(HardwareRegister::TIMA);
                tima = tima.wrapping_add(1);
                if tima == 0 {
                    let tma = memory.read_hardware_register(HardwareRegister::TMA);
                    memory.write_hardware_register(HardwareRegister::TIMA, tma);
                    let mut if_reg = memory.read_hardware_register(HardwareRegister::IF);
                    if_reg = if_reg | TIMER_REQUEST;
                    memory.write_hardware_register(HardwareRegister::IF, if_reg);
                } else {
                    memory.write_hardware_register(HardwareRegister::TIMA, tima);
                }
                proof {
                    count = count + 1;
                    assert(memory@ =~= if spec_tima_overflows(start, reload, count) {
                        divided.update(
                            HardwareRegister::TIMA.spec_address() as int,
                            spec_tima_after(start, reload, count),
                        ).update(
                            HardwareRegister::IF.spec_address() as int,
                            requests | TIMER_REQUEST,
                        )
                    } else {
                        divided.update(
                            HardwareRegister::TIMA.spec_address() as int,
                            spec_tima_after(start, reload, count),
                        )
                    });
                }
            }
            self.tima_counter = tima_counter as u16;
            proof {
                let period = threshold as int;
                assert(count == tima_total / period && tima_counter == tima_total % period) by {
                    lemma_quotient(tima_total, period, count as int, tima_counter as int);
                }
            }
        }
        proof {
            lemma_quotient(div_total, 256, div_steps, div_counter as int);
        }
    }
}

/// A number written as `divisor * quotient + remainder` with the remainder
/// below the divisor has that quotient and that remainder.
pub proof fn lemma_quotient(total: int, divisor: int, quotient: int, remainder: int)
    requires
        divisor > 0,
        0 <= remainder < divisor,
        total == divisor * quotient + remainder,
    ensures
        total / divisor == quotient,
        total % divisor == remainder,
{
    assert(divisor * quotient == quotient * divisor) by (nonlinear_arith);
    vstd::arithmetic::div_mod::lemma_fundamental_div_mod_converse(
        total,
        divisor,
        quotient,
        remainder,
    );
}

/// Counting TIMA up `first` times and then `second` times is counting it
/// up `first + second` times, and it passes 0xFF in the whole run exactly
/// when it does so in one of the two parts.
pub proof fn lemma_tima_after_additive(tima: u8, tma: u8, first: nat, second: nat)
    ensures
        spec_tima_after(spec_tima_after(tima, tma, first), tma, second) == spec_tima_after(
            tima,
            tma,
            first + second,
        ),
        spec_tima_overflows(tima, tma, first + second) == (spec_tima_overflows(tima, tma, first)
            || spec_tima_overflows(spec_tima_after(tima, tma, first), tma, second)),
    decreases second,
{
    if second > 0 {
        lemma_tima_after_additive(tima, tma, first, (second - 1) as nat);
        assert(first + second - 1 == first + (second - 1) as nat);
    }
}

proof fn lemma_split_quotient(start: int, first: int, second: int, period: int)
    requires
        period == 16 || period == 64 || period == 256 || period == 1024,
        start >= 0,
        first >= 0,
        second >= 0,
    ensures
        (start + first + second) / period == (start + first) / period + ((start + first) % period
            + second) / period,
        (start + first + second) % period == ((start + first) % period + second) % period,
{
    let whole = start + first;
    let carried = whole % period + second;
    vstd::arithmetic::div_mod::lemma_fundamental_div_mod(whole, period);
    vstd::arithmetic::div_mod::lemma_fundamental_div_mod(carried, period);
    assert(period * (whole / period + carried / period) == period * (whole / period) + period * (
    carried / period)) by (nonlinear_arith);
    lemma_quotient(
        start + first + second,
        period,
        whole / period + carried / period,
        carried % period,
    );
}

proof fn lemma_request_twice(requests: u8)
    by (bit_vector)
    ensures
        requests | TIMER_REQUEST | TIMER_REQUEST == requests | TIMER_REQUEST,
{
}

proof fn lemma_divider_additive(division: u8, counter: u16, first: u16, second: u16)
    ensures
        ({
            let halfway = ((division + (counter + first) / 256) % 256) as u8;
            let rest = ((counter + first) % 256) as u16;
            &&& (halfway + (rest + second) / 256) % 256 == (division + (counter + first + second)
                / 256) % 256
            &&& (rest + second) % 256 == (counter + first + second) % 256
        }),
{
    lemma_split_quotient(counter as int, first as int, second as int, 256);
    let passed = (counter + first) / 256;
    let more = ((counter + first) % 256 + second) / 256;
    let halfway = (division + passed) % 256;
    vstd::arithmetic::div_mod::lemma_fundamental_div_mod(division + passed, 256);
    vstd::arithmetic::div_mod::lemma_fundamental_div_mod(halfway + more, 256);
    assert(256 * ((division + passed) / 256 + (halfway + more) / 256) == 256 * ((division
        + passed) / 256) + 256 * ((halfway + more) / 256)) by (nonlinear_arith);
    lemma_quotient(
        division + passed + more,
        256,
        (division + passed) / 256 + (halfway + more) / 256,
        (halfway + more) % 256,
    );
}

/// Time is counted the same however it is cut: stepping the timer by
/// `first` and then by `second` T-cycles leaves the same prescalers and the
/// same cells as one step by `first + second`. DIV has then gone up once for
/// every 256 T-cycles, and TIMA, when it is switched on, once for every
/// period that TAC selects.
#[verifier::rlimit(30)]
pub proof fn lemma_step_additive(timer: Timer, cells: Seq<u8>, first: u16, second: u16)
    requires
        cells.len() == 0x10000,
        first + second <= 0xFFFF,
    ensures
        ({
            let (halfway, between) = timer.spec_step(cells, first);
            halfway.spec_step(between, second) == timer.spec_step(cells, (first + second) as u16)
        }),
{
    let div = HardwareRegister::DIV.spec_address() as int;
    let tima = HardwareRegister::TIMA.spec_address() as int;
    let tma = HardwareRegister::TMA.spec_address() as int;
    let tac = HardwareRegister::TAC.spec_address() as int;
    let requests = HardwareRegister::IF.spec_address() as int;
    let (halfway, between) = timer.spec_step(cells, first);
    let (twice, last) = halfway.spec_step(between, second);
    let (once, whole) = timer.spec_step(cells, (first + second) as u16);
    lemma_divider_additive(cells[div], timer.div_counter, first, second);
    assert(between[div] == ((cells[div] + (timer.div_counter + first) / 256) % 256) as u8);
    assert(halfway.div_counter == ((timer.div_counter + first) % 256) as u16);
    assert(between[tac] == cells[tac]);
    assert(between[tma] == cells[tma]);
    assert(last[div] == whole[div]);
    assert(twice.div_counter == once.div_counter);
    if spec_timer_enabled(cells[tac]) {
        let period = spec_threshold(cells[tac]) as int;
        lemma_split_quotient(timer.tima_counter as int, first as int, second as int, period);
        let count_first = ((timer.tima_counter + first) / period) as nat;
        let count_second = ((halfway.tima_counter + second) / period) as nat;
        let count_whole = ((timer.tima_counter + first + second) / period) as nat;
        assert(halfway.tima_counter == (timer.tima_counter + first) % period);
        assert(count_whole == count_first + count_second);
        lemma_tima_after_additive(cells[tima], cells[tma], count_first, count_second);
        lemma_request_twice(cells[requests]);
        assert(between[tima] == spec_tima_after(cells[tima], cells[tma], count_first));
        assert(last[tima] == spec_tima_after(between[tima], cells[tma], count_second));
        assert(whole[tima] == spec_tima_after(cells[tima], cells[tma], count_whole));
        assert(between[requests] == if spec_tima_overflows(cells[tima], cells[tma], count_first) {
            cells[requests] | TIMER_REQUEST
        } else {
            cells[requests]
        });
        assert(last[requests] == whole[requests]);
        assert(twice.tima_counter == once.tima_counter);
        assert(last =~= whole);
    } else {
        assert(twice.tima_counter == once.tima_counter);
        assert(last =~= whole);
    }
}

/// DIV goes up once for every 256 T-cycles, whatever TAC, TIMA and TMA
/// hold: a step adds to DIV the number of times the prescaler passes 256,
/// and keeps the rest. In particular a step of exactly 256 T-cycles adds one.
pub proof fn lemma_div_period(timer: Timer, cells: Seq<u8>, cycles: u16)
    requires
        cells.len() == 0x10000,
    ensures
        ({
            let div = HardwareRegister::DIV.spec_address() as int;
            let (stepped, after) = timer.spec_step(cells, cycles);
            &&& after[div] == (cells[div] + (timer.div_counter + cycles) / 256) % 256
            &&& stepped.div_counter == (timer.div_counter + cycles) % 256
            &&& timer.div_counter < 256 && cycles == 256 ==> after[div] == cells[div].wrapping_add(
                1,
            ) && stepped.div_counter == timer.div_counter
        }),
{
}

/// While TAC switches it on, TIMA counts one for every period that TAC
/// selects. A step that does not fill the period leaves TIMA and IF alone.
/// A step of exactly one period counts once: TIMA goes up by one, or, from
/// 0xFF, is reloaded from TMA while the timer bit of IF is set.
pub proof fn lemma_tima_period(timer: Timer, cells: Seq<u8>, cycles: u16)
    requires
        cells.len() == 0x10000,
        spec_timer_enabled(cells[HardwareRegister::TAC.spec_address() as int]),
        timer.tima_counter < spec_threshold(cells[HardwareRegister::TAC.spec_address() as int]),
    ensures
        ({
            let tima = HardwareRegister::TIMA.spec_address() as int;
            let tma = HardwareRegister::TMA.spec_address() as int;
            let requests = HardwareRegister::IF.spec_address() as int;
            let period = spec_threshold(cells[HardwareRegister::TAC.spec_address() as int]);
            let (stepped, after) = timer.spec_step(cells, cycles);
            &&& timer.tima_counter + cycles < period ==> after[tima] == cells[tima]
                && after[requests] == cells[requests] && stepped.tima_counter
                == timer.tima_counter + cycles
            &&& cycles == period && cells[tima] != 0xFF ==> after[tima] == cells[tima] + 1
                && after[requests] == cells[requests] && stepped.tima_counter
                == timer.tima_counter
            &&& cycles == period && cells[tima] == 0xFF ==> after[tima] == cells[tma]
                && after[requests] == cells[requests] | TIMER_REQUEST && stepped.tima_counter
                == timer.tima_counter
        }),
{
    let tima = HardwareRegister::TIMA.spec_address() as int;
    let tma = HardwareRegister::TMA.spec_address() as int;
    let period = spec_threshold(cells[HardwareRegister::TAC.spec_address() as int]) as int;
    let total = timer.tima_counter + cycles;
    if total < period {
        lemma_quotient(total, period, 0, total);
    }
    if cycles == period {
        lemma_quotient(total, period, 1, timer.tima_counter as int);
    }
    reveal_with_fuel(spec_tima_after, 2);
    reveal_with_fuel(spec_tima_overflows, 2);
}

} // verus!
