use wwvb::symbol::Symbol;
use wwvb::wwvb_amplitude_shift_keying_modulator::{
    symbol_timing, ModulatorCommand, ModulatorState, SymbolTiming,
    WwvbAmplitudeShiftKeyingModulator, POLL_INTERVAL_US,
};

#[test]
fn symbol_timings_are_compensated() {
    assert_eq!(symbol_timing(Symbol::Low), SymbolTiming { low_us: 199_000, high_us: 796_000 });
    assert_eq!(symbol_timing(Symbol::High), SymbolTiming { low_us: 497_500, high_us: 497_500 });
    assert_eq!(symbol_timing(Symbol::Mark), SymbolTiming { low_us: 796_000, high_us: 199_000 });
    for s in [Symbol::Low, Symbol::High, Symbol::Mark] {
        let t = symbol_timing(s);
        assert_eq!(t.low_us + t.high_us, 995_000);
    }
}

#[test]
fn idle_tick_polls() {
    let mut m = WwvbAmplitudeShiftKeyingModulator::new();
    assert_eq!(m.state, ModulatorState::Idle);
    assert_eq!(m.on_tick(None, 5), ModulatorCommand::Wait { us: POLL_INTERVAL_US });
    assert_eq!(m.state, ModulatorState::Idle);
    assert_eq!(POLL_INTERVAL_US, 1000);
}

#[test]
fn symbol_tick_transmits_and_returns_to_idle() {
    let mut m = WwvbAmplitudeShiftKeyingModulator::new();
    let cmd = m.on_tick(Some(Symbol::Mark), 3);
    assert_eq!(
        cmd,
        ModulatorCommand::Transmit {
            continue_carrier: false,
            timing: SymbolTiming { low_us: 796_000, high_us: 199_000 },
        }
    );
    assert_eq!(m.state, ModulatorState::Transmitting(Symbol::Mark));
    assert_eq!(m.on_symbol_sent(), ModulatorCommand::Wait { us: 1000 });
    assert_eq!(m.state, ModulatorState::Idle);
}

#[test]
fn carrier_is_continued_when_nearly_exhausted() {
    let mut m = WwvbAmplitudeShiftKeyingModulator::new();
    for (queued, expected) in [(0usize, true), (1, true), (2, false), (10, false)] {
        match m.on_tick(Some(Symbol::Low), queued) {
            ModulatorCommand::Transmit { continue_carrier, timing } => {
                assert_eq!(continue_carrier, expected);
                assert_eq!(timing, SymbolTiming { low_us: 199_000, high_us: 796_000 });
            }
            other => panic!("unexpected command {:?}", other),
        }
        m.on_symbol_sent();
    }
}
