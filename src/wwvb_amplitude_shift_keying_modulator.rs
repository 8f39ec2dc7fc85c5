use vstd::prelude::*;

use crate::symbol::Symbol;

verus! {

/// Drift compensation, in thousandths: every nominal duration is shortened to
/// 99.5% so that processing latency between symbols does not push the minute
/// boundary later and later.
pub const TIME_VARIATION_PER_MILLE: u64 = 995;

pub const TIME_MS_TO_US: u64 = 1000;

/// Nominal length of one symbol in milliseconds.
pub const SYMBOL_MS: u64 = 1000;

pub const SHORT_DURATION_MS: u64 = 200;
pub const MID_DURATION_MS: u64 = 500;
pub const LONG_DURATION_MS: u64 = 800;

/// Pause after each pass of the modulator loop, in microseconds.
pub const POLL_INTERVAL_US: u64 = 1000;

/// The carrier is continued when fewer clips than this are queued at the sink.
pub const MINIMUM_SOUND_BUFFER_SIZE: usize = 2;

/// Nominal time at low amplitude at the start of a symbol, in milliseconds.
pub open spec fn nominal_low_ms(symbol: Symbol) -> nat {
    match symbol {
        Symbol::Low => SHORT_DURATION_MS as nat,
        Symbol::High => MID_DURATION_MS as nat,
        Symbol::Mark => LONG_DURATION_MS as nat,
    }
}

/// Nominal time at high amplitude for the rest of the symbol, in milliseconds.
pub open spec fn nominal_high_ms(symbol: Symbol) -> nat {
    match symbol {
        Symbol::Low => LONG_DURATION_MS as nat,
        Symbol::High => MID_DURATION_MS as nat,
        Symbol::Mark => SHORT_DURATION_MS as nat,
    }
}

/// A nominal duration in milliseconds, scaled by the drift compensation and
/// given in microseconds.
pub open spec fn compensated_us(ms: nat) -> nat {
    ms * (TIME_MS_TO_US as nat) * (TIME_VARIATION_PER_MILLE as nat) / 1000
}

/// How long one symbol holds each amplitude level, in microseconds: low
/// first, then high.
#[derive(Clone, Copy, Debug, PartialEq, Eq, Structural)]
pub struct SymbolTiming {
    pub low_us: u64,
    pub high_us: u64,
}

pub open spec fn timing_of(symbol: Symbol) -> SymbolTiming {
    SymbolTiming {
        low_us: compensated_us(nominal_low_ms(symbol)) as u64,
        high_us: compensated_us(nominal_high_ms(symbol)) as u64,
    }
}

fn compensated_duration(ms: u64) -> (r: u64)
    requires
        ms <= SYMBOL_MS,
    ensures
        r == compensated_us(ms as nat),
{
    ms * TIME_MS_TO_US * TIME_VARIATION_PER_MILLE / 1000
}

/// The amplitude timeline of `symbol`.
pub fn symbol_timing(symbol: Symbol) -> (r: SymbolTiming)
    ensures
        r == timing_of(symbol),
{
    match symbol {
        Symbol::Low => SymbolTiming {
            low_us: compensated_duration(SHORT_DURATION_MS),
            high_us: compensated_duration(LONG_DURATION_MS),
        },
        Symbol::High => SymbolTiming {
            low_us: compensated_duration(MID_DURATION_MS),
            high_us: compensated_duration(MID_DURATION_MS),
        },
        Symbol::Mark => SymbolTiming {
            low_us: compensated_duration(LONG_DURATION_MS),
            high_us: compensated_duration(SHORT_DURATION_MS),
        },
    }
}

/// Every symbol switches from low to high amplitude after its nominal low
/// time scaled by the drift compensation, and in all lasts one nominal
/// second scaled the same way.
pub proof fn lemma_symbol_cell(symbol: Symbol)
    ensures
        timing_of(symbol).low_us == compensated_us(nominal_low_ms(symbol)),
        timing_of(symbol).low_us + timing_of(symbol).high_us == compensated_us(SYMBOL_MS as nat),
{
}

/// Whether the carrier clip must be continued before the next symbol, given
/// how many clips the sink still has queued.
pub open spec fn needs_continuation(queued_clips: usize) -> bool {
    queued_clips < MINIMUM_SOUND_BUFFER_SIZE
}

#[derive(Clone, Copy, Debug, PartialEq, Eq, Structural)]
pub enum ModulatorState {
    Idle,
    Transmitting(Symbol),
}

/// What the driver of the modulator does next.
#[derive(Clone, Copy, Debug, PartialEq, Eq, Structural)]
pub enum ModulatorCommand {
    /// Sleep this long, then tick again.
    Wait { us: u64 },
    /// Continue the carrier first where asked, then hold the low level for
    /// `timing.low_us` and the high level for `timing.high_us`.
    Transmit { continue_carrier: bool, timing: SymbolTiming },
}

/// Decisions of the WWVB amplitude-shift-keying modulator. The driver pops the
/// symbol queue, reports the outcome with `on_tick`, performs the returned
/// command to completion, and after a transmission reports `on_symbol_sent`.
pub struct WwvbAmplitudeShiftKeyingModulator {
    pub state: ModulatorState,
}

impl WwvbAmplitudeShiftKeyingModulator {
    pub fn new() -> (r: WwvbAmplitudeShiftKeyingModulator)
        ensures
            r.state == ModulatorState::Idle,
    {
        WwvbAmplitudeShiftKeyingModulator { state: ModulatorState::Idle }
    }

    /// One pass of the modulator loop: `popped` is what the queue gave,
    /// `queued_clips` how many carrier clips the sink holds. With no symbol
    /// the modulator stays idle and polls again; with one it transmits it.
    pub fn on_tick(&mut self, popped: Option<Symbol>, queued_clips: usize) -> (r: ModulatorCommand)
        ensures
            match popped {
                None => {
                    &&& r == (ModulatorCommand::Wait { us: POLL_INTERVAL_US })
                    &&& final(self).state == ModulatorState::Idle
                },
                Some(symbol) => {
                    &&& r == (ModulatorCommand::Transmit {
                        continue_carrier: needs_continuation(queued_clips),
                        timing: timing_of(symbol),
                    })
                    &&& final(self).state == ModulatorState::Transmitting(symbol)
                },
            },
    {
        match popped {
            None => {
                self.state = ModulatorState::Idle;
                ModulatorCommand::Wait { us: POLL_INTERVAL_US }
            },
            Some(symbol) => {
                self.state = ModulatorState::Transmitting(symbol);
                let continue_carrier = queued_clips < MINIMUM_SOUND_BUFFER_SIZE;
                ModulatorCommand::Transmit { continue_carrier, timing: symbol_timing(symbol) }
            },
        }
    }

    /// The transmission has run to completion: back to idle, and poll.
    pub fn on_symbol_sent(&mut self) -> (r: ModulatorCommand)
        ensures
            r == (ModulatorCommand::Wait { us: POLL_INTERVAL_US }),
            final(self).state == ModulatorState::Idle,
    {
        self.state = ModulatorState::Idle;
        ModulatorCommand::Wait { us: POLL_INTERVAL_US }
    }
}

} // verus!
