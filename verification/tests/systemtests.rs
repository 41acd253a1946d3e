use estim2b_lib::{
    Link, TwoB, TwoBBias, TwoBChannel, TwoBError, TwoBMap, TwoBMode, TwoBPower, TwoBRamp,
    TwoBState, TwoBWarp, USBTwoB, VirtualTwoB,
};
use std::sync::{Arc, Mutex};

/// A unit on the bench: it takes framed commands as text and answers each
/// with a response line, as the hardware does.
struct BenchUnit {
    state: TwoBState,
    log: Arc<Mutex<Vec<String>>>,
}

impl BenchUnit {
    fn new() -> BenchUnit {
        BenchUnit {
            state: TwoBState {
                channel_a: 7,
                channel_b: 9,
                channel_c: 11,
                channel_d: 13,
                mode: TwoBMode::Wave,
                joined_channels: true,
                power: TwoBPower::HIGH,
                bias: TwoBBias::B,
                map: TwoBMap::B,
                ramp: TwoBRamp::X3,
                warp: TwoBWarp::X8,
                battery: 512,
            },
            log: Arc::new(Mutex::new(Vec::new())),
        }
    }

    fn channel(&mut self, letter: char) -> &mut u8 {
        match letter {
            'A' => &mut self.state.channel_a,
            'B' => &mut self.state.channel_b,
            'C' => &mut self.state.channel_c,
            _ => &mut self.state.channel_d,
        }
    }

    fn answer(&mut self, framed: &str) -> String {
        assert!(framed.ends_with('\r'));
        let text = &framed[..framed.len() - 1];
        self.log.lock().unwrap().push(text.to_string());
        let opcode = text.chars().next().unwrap();
        let rest = &text[1..];
        match opcode {
            'V' => {}
            'E' => {
                self.state = TwoBState {
                    channel_a: 0,
                    channel_b: 0,
                    channel_c: 50,
                    channel_d: 50,
                    mode: TwoBMode::Pulse,
                    joined_channels: false,
                    power: TwoBPower::LOW,
                    bias: TwoBBias::A,
                    map: TwoBMap::A,
                    ramp: TwoBRamp::X1,
                    warp: TwoBWarp::X1,
                    battery: self.state.battery,
                }
            }
            'K' => {
                self.state.channel_a = 0;
                self.state.channel_b = 0;
            }
            'J' => self.state.joined_channels = rest == "1",
            'M' => self.state.mode = TwoBMode::try_from(rest.parse::<u8>().unwrap()).unwrap(),
            'H' => self.state.power = TwoBPower::HIGH,
            'L' => self.state.power = TwoBPower::LOW,
            'O' => self.state.map = TwoBMap::try_from(rest.parse::<u8>().unwrap()).unwrap(),
            'Q' => self.state.bias = TwoBBias::try_from(rest.parse::<u8>().unwrap()).unwrap(),
            'R' => self.state.ramp = TwoBRamp::try_from(rest.parse::<u8>().unwrap()).unwrap(),
            'W' => self.state.warp = TwoBWarp::try_from(rest.parse::<u8>().unwrap()).unwrap(),
            'A' | 'B' | 'C' | 'D' => {
                let level = self.channel(opcode);
                match rest {
                    "+" => *level = level.wrapping_add(1),
                    "-" => *level = level.wrapping_sub(1),
                    value => *level = value.parse::<u8>().unwrap(),
                }
            }
            other => panic!("no such opcode: {}", other),
        }
        let s = &self.state;
        format!(
            "{}:{}:{}:{}:{}:{}:{}:{}:{}:{}:{}:{}:2.106\n",
            s.battery,
            2 * s.channel_a as u16,
            2 * s.channel_b as u16,
            2 * s.channel_c as u16,
            2 * s.channel_d as u16,
            u8::from(s.mode),
            s.power.value(),
            u8::from(s.bias),
            if s.joined_channels { 1 } else { 0 },
            u8::from(s.map),
            u8::from(s.warp),
            u8::from(s.ramp),
        )
    }
}

impl Link for BenchUnit {
    fn exchange(&mut self, command: &str) -> Result<String, TwoBError> {
        Ok(self.answer(command))
    }
}

fn bench() -> Result<(USBTwoB<BenchUnit>, Arc<Mutex<Vec<String>>>), TwoBError> {
    let unit = BenchUnit::new();
    let log = unit.log.clone();
    Ok((USBTwoB::new(unit)?, log))
}

fn sent(log: &Arc<Mutex<Vec<String>>>) -> Vec<String> {
    log.lock().unwrap().clone()
}

#[test]
fn parse_response() -> Result<(), TwoBError> {
    let s = "344:10:12:120:116:15:L:0:0:0:0:0:2.120B".to_string();
    assert_eq!(
        TwoBState::try_from(&s)?,
        TwoBState {
            battery: 344,
            channel_a: 5,
            channel_b: 6,
            channel_c: 60,
            channel_d: 58,
            mode: TwoBMode::try_from(15u8)?,
            power: TwoBPower::LOW,
            bias: TwoBBias::A,
            joined_channels: false,
            map: TwoBMap::A,
            ramp: TwoBRamp::X1,
            warp: TwoBWarp::X1,
        }
    );
    Ok(())
}

#[test]
fn usb_cycle_modes() -> Result<(), TwoBError> {
    cycle_modes(bench()?.0)
}

#[test]
fn virtual_cycle_modes() -> Result<(), TwoBError> {
    cycle_modes(VirtualTwoB::new()?)
}

fn cycle_modes(mut twob: impl TwoB) -> Result<(), TwoBError> {
    let start: u8 = TwoBMode::Pulse.into();
    let end: u8 = TwoBMode::Training.into();
    for mode in start..=end {
        println!("{}", mode);
        twob.set_mode(TwoBMode::try_from(mode)?)?;
    }

    Ok(())
}

#[test]
fn usb_state_changing() -> Result<(), TwoBError> {
    state_changing(bench()?.0)
}

#[test]
fn virtual_state_changing() -> Result<(), TwoBError> {
    state_changing(VirtualTwoB::new()?)
}

fn state_changing(mut twob: impl TwoB) -> Result<(), TwoBError> {
    twob.reset()?;
    let mut state = twob.get_state();

    assert_eq!(
        state,
        TwoBState {
            channel_a: 0,
            channel_b: 0,
            channel_c: 50,
            channel_d: 50,
            mode: TwoBMode::Pulse,
            joined_channels: false,
            ..state
        }
    );

    twob.set_state(TwoBState {
        channel_a: 1,
        channel_b: 2,
        channel_c: 4,
        channel_d: 8,
        mode: TwoBMode::Throb,
        joined_channels: true,
        power: TwoBPower::HIGH,
        bias: TwoBBias::MAX,
        map: TwoBMap::C,
        ramp: TwoBRamp::X4,
        warp: TwoBWarp::X32,
        ..state
    })?;

    state = twob.get_state();
    assert_eq!(
        state,
        TwoBState {
            channel_a: 1,
            channel_b: 2,
            channel_c: 4,
            channel_d: 8,
            mode: TwoBMode::Throb,
            joined_channels: true,
            power: TwoBPower::HIGH,
            bias: TwoBBias::MAX,
            map: TwoBMap::C,
            ramp: TwoBRamp::X4,
            warp: TwoBWarp::X32,
            ..state
        }
    );

    twob.set_state(TwoBState {
        channel_a: 16,
        channel_b: 32,
        channel_c: 64,
        channel_d: 96,
        mode: TwoBMode::Waterfall,
        joined_channels: true,
        power: TwoBPower::HIGH,
        bias: TwoBBias::AVERAGE,
        map: TwoBMap::B,
        ramp: TwoBRamp::X2,
        warp: TwoBWarp::X16,
        ..state
    })?;

    state = twob.get_state();
    assert_eq!(
        state,
        TwoBState {
            channel_a: 16,
            channel_b: 32,
            channel_c: 64,
            channel_d: 96,
            mode: TwoBMode::Waterfall,
            joined_channels: true,
            power: TwoBPower::HIGH,
            bias: TwoBBias::AVERAGE,
            map: TwoBMap::B,
            ramp: TwoBRamp::X2,
            warp: TwoBWarp::X16,
            ..state
        }
    );

    twob.reset()?;
    state = twob.get_state();
    assert_eq!(
        state,
        TwoBState {
            channel_a: 0,
            channel_b: 0,
            channel_c: 50,
            channel_d: 50,
            mode: TwoBMode::Pulse,
            joined_channels: false,
            power: TwoBPower::LOW,
            bias: TwoBBias::A,
            map: TwoBMap::A,
            ramp: TwoBRamp::X1,
            warp: TwoBWarp::X1,
            ..state
        }
    );
    Ok(())
}

#[test]
fn bench_set_state_sends_changed_settings_in_order() {
    let (mut twob, log) = bench().unwrap();
    twob.reset().unwrap();
    log.lock().unwrap().clear();
    let state = twob.get_state();
    twob.set_state(TwoBState {
        channel_a: 1,
        channel_d: 8,
        mode: TwoBMode::Throb,
        power: TwoBPower::HIGH,
        warp: TwoBWarp::X32,
        ..state
    })
    .unwrap();
    assert_eq!(sent(&log), vec!["M10", "H", "W5", "A1", "D8"]);
    assert_eq!(twob.get_version(), "2.106");
    assert_eq!(twob.get_battery(), 512);
}

#[test]
fn bench_set_state_sends_every_setting_in_the_fixed_order() {
    let (mut twob, log) = bench().unwrap();
    twob.reset().unwrap();
    log.lock().unwrap().clear();
    let state = twob.get_state();
    twob.set_state(TwoBState {
        channel_a: 1,
        channel_b: 2,
        channel_c: 4,
        channel_d: 8,
        mode: TwoBMode::Throb,
        joined_channels: true,
        power: TwoBPower::HIGH,
        bias: TwoBBias::MAX,
        map: TwoBMap::C,
        ramp: TwoBRamp::X4,
        warp: TwoBWarp::X32,
        ..state
    })
    .unwrap();
    assert_eq!(
        sent(&log),
        vec!["M10", "H", "Q3", "J1", "O2", "R3", "W5", "A1", "B2", "C4", "D8"]
    );
}

#[test]
fn bench_set_state_to_same_state_sends_nothing() {
    let (mut twob, log) = bench().unwrap();
    log.lock().unwrap().clear();
    let state = twob.get_state();
    twob.set_state(state).unwrap();
    assert!(sent(&log).is_empty());
}

#[test]
fn bench_set_state_ignores_the_battery() {
    let (mut twob, log) = bench().unwrap();
    log.lock().unwrap().clear();
    let state = twob.get_state();
    twob.set_state(TwoBState { battery: 1, ..state }).unwrap();
    assert!(sent(&log).is_empty());
    assert_eq!(twob.get_battery(), 512);
}

#[test]
fn bench_handshake_fills_the_cache() {
    let (twob, log) = bench().unwrap();
    assert_eq!(sent(&log), vec!["V"]);
    assert_eq!(twob.get_state(), BenchUnit::new().state);
    assert_eq!(twob.get_mode(), TwoBMode::Wave);
    assert_eq!(twob.get_power(), TwoBPower::HIGH);
    assert_eq!(twob.get_bias(), TwoBBias::B);
    assert_eq!(twob.get_map(), TwoBMap::B);
    assert_eq!(twob.get_ramp(), TwoBRamp::X3);
    assert_eq!(twob.get_warp(), TwoBWarp::X8);
    assert!(twob.get_joined_channels());
    assert_eq!(twob.get_channel(TwoBChannel::A), 7);
    assert_eq!(twob.get_channel(TwoBChannel::B), 9);
    assert_eq!(twob.get_channel(TwoBChannel::C), 11);
    assert_eq!(twob.get_channel(TwoBChannel::D), 13);
    assert_eq!(twob.get_version(), "2.106");
}

#[test]
fn bench_single_commands() {
    let (mut twob, log) = bench().unwrap();
    twob.increment_channel(TwoBChannel::B).unwrap();
    twob.decrement_channel(TwoBChannel::D).unwrap();
    twob.set_channel(TwoBChannel::C, 100).unwrap();
    twob.set_joined_channels(false).unwrap();
    twob.set_power(TwoBPower::LOW).unwrap();
    twob.set_map(TwoBMap::C).unwrap();
    twob.set_bias(TwoBBias::AVERAGE).unwrap();
    twob.set_ramp(TwoBRamp::X2).unwrap();
    twob.set_warp(TwoBWarp::X16).unwrap();
    twob.kill().unwrap();
    twob.refresh_state().unwrap();
    assert_eq!(
        sent(&log),
        vec!["V", "B+", "D-", "C100", "J0", "L", "O2", "Q2", "R1", "W4", "K", "V"]
    );
    assert_eq!(twob.get_channel(TwoBChannel::A), 0);
    assert_eq!(twob.get_channel(TwoBChannel::B), 0);
    assert_eq!(twob.get_channel(TwoBChannel::C), 100);
    assert_eq!(twob.get_channel(TwoBChannel::D), 12);
    assert!(!twob.get_joined_channels());
    assert_eq!(twob.get_warp(), TwoBWarp::X16);
}

/// A link that answers the handshake and then what it was told to.
struct ScriptedLink {
    answers: Vec<Result<String, TwoBError>>,
    log: Arc<Mutex<Vec<String>>>,
}

impl Link for ScriptedLink {
    fn exchange(&mut self, command: &str) -> Result<String, TwoBError> {
        self.log.lock().unwrap().push(command.to_string());
        self.answers.remove(0)
    }
}

const QUIET: &str = "500:0:0:100:100:0:L:0:0:0:0:0:2.106\n";

#[test]
fn failed_exchange_leaves_the_cache() {
    let log = Arc::new(Mutex::new(Vec::new()));
    let link = ScriptedLink {
        answers: vec![
            Ok(QUIET.to_string()),
            Err(TwoBError::ConnectionError("timed out".to_string())),
            Ok("500:0:0:100".to_string()),
            Ok("501:2:0:100:100:3:H:0:0:0:0:0:2.107\n".to_string()),
        ],
        log: log.clone(),
    };
    let mut twob = USBTwoB::new(link).unwrap();
    let before = twob.get_state();
    assert_eq!(
        twob.set_mode(TwoBMode::Flo),
        Err(TwoBError::ConnectionError("timed out".to_string()))
    );
    assert_eq!(twob.get_state(), before);
    assert_eq!(
        twob.set_mode(TwoBMode::Flo),
        Err(TwoBError::ParserError("Missing field `channel_d`".to_string()))
    );
    assert_eq!(twob.get_state(), before);
    assert_eq!(twob.get_version(), "2.106");
    assert_eq!(twob.set_mode(TwoBMode::Flo), Ok(()));
    assert_eq!(twob.get_mode(), TwoBMode::Flo);
    assert_eq!(twob.get_power(), TwoBPower::HIGH);
    assert_eq!(twob.get_channel(TwoBChannel::A), 1);
    assert_eq!(twob.get_battery(), 501);
    assert_eq!(twob.get_version(), "2.107");
    assert_eq!(sent(&log), vec!["V\r", "M3\r", "M3\r", "M3\r"]);
}

#[test]
fn failed_handshake_gives_no_handle() {
    let link = ScriptedLink {
        answers: vec![Err(TwoBError::ConnectionError("no port".to_string()))],
        log: Arc::new(Mutex::new(Vec::new())),
    };
    assert!(matches!(USBTwoB::new(link), Err(TwoBError::ConnectionError(_))));
    let link = ScriptedLink {
        answers: vec![Ok("garbage".to_string())],
        log: Arc::new(Mutex::new(Vec::new())),
    };
    match USBTwoB::new(link) {
        Err(TwoBError::ParserError(message)) => {
            assert_eq!(message, "Cannot parse field `battery` from `garbage`")
        }
        _ => panic!("a handle from garbage"),
    }
}

#[test]
fn set_state_stops_at_the_first_failure() {
    let log = Arc::new(Mutex::new(Vec::new()));
    let link = ScriptedLink {
        answers: vec![
            Ok(QUIET.to_string()),
            Ok("500:0:0:100:100:10:L:0:0:0:0:0:2.106\n".to_string()),
            Err(TwoBError::ConnectionError("timed out".to_string())),
        ],
        log: log.clone(),
    };
    let mut twob = USBTwoB::new(link).unwrap();
    let state = twob.get_state();
    let wanted = TwoBState {
        mode: TwoBMode::Throb,
        power: TwoBPower::HIGH,
        channel_a: 9,
        ..state
    };
    assert_eq!(
        twob.set_state(wanted),
        Err(TwoBError::ConnectionError("timed out".to_string()))
    );
    assert_eq!(sent(&log), vec!["V\r", "M10\r", "H\r"]);
    assert_eq!(twob.get_state(), TwoBState { mode: TwoBMode::Throb, ..state });
}

#[test]
fn set_state_compares_with_what_the_unit_last_answered() {
    let log = Arc::new(Mutex::new(Vec::new()));
    // The unit drops its levels when the mode changes, and the second
    // channel comes back at the wanted level by itself.
    let link = ScriptedLink {
        answers: vec![
            Ok("500:8:8:100:100:0:L:0:0:0:0:0:2.106\n".to_string()),
            Ok("500:0:10:100:100:10:L:0:0:0:0:0:2.106\n".to_string()),
            Ok("500:8:10:100:100:10:L:0:0:0:0:0:2.106\n".to_string()),
        ],
        log: log.clone(),
    };
    let mut twob = USBTwoB::new(link).unwrap();
    let state = twob.get_state();
    assert_eq!(state.channel_a, 4);
    let wanted = TwoBState { mode: TwoBMode::Throb, channel_b: 5, ..state };
    assert_eq!(twob.set_state(wanted.clone()), Ok(()));
    assert_eq!(sent(&log), vec!["V\r", "M10\r", "A4\r"]);
    assert_eq!(twob.get_state(), wanted);
}

fn silent() -> ScriptedLink {
    ScriptedLink { answers: Vec::new(), log: Arc::new(Mutex::new(Vec::new())) }
}

#[test]
fn handshake_outcomes() {
    let twob = USBTwoB::with_answer(silent(), Ok(QUIET.to_string())).unwrap();
    assert_eq!(
        twob.get_state(),
        TwoBState {
            battery: 500,
            channel_a: 0,
            channel_b: 0,
            channel_c: 50,
            channel_d: 50,
            mode: TwoBMode::Pulse,
            power: TwoBPower::LOW,
            bias: TwoBBias::A,
            joined_channels: false,
            map: TwoBMap::A,
            warp: TwoBWarp::X1,
            ramp: TwoBRamp::X1,
        }
    );
    assert_eq!(twob.get_version(), "2.106");
    match USBTwoB::with_answer(
        silent(),
        Err(TwoBError::ConnectionError("timed out".to_string())),
    ) {
        Err(e) => assert_eq!(e, TwoBError::ConnectionError("timed out".to_string())),
        Ok(_) => panic!("a handle without an answer"),
    }
    match USBTwoB::with_answer(silent(), Ok("500:0:0:100:100:0:L:0:0:0:0:0".to_string())) {
        Err(e) => assert_eq!(e, TwoBError::ParserError("Missing field `version`".to_string())),
        Ok(_) => panic!("a handle without a version"),
    }
}
