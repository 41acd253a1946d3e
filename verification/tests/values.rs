use estim2b_lib::{
    TwoBBias, TwoBChannel, TwoBError, TwoBMap, TwoBMode, TwoBPower, TwoBRamp, TwoBWarp,
};

const MODES: [TwoBMode; 17] = [
    TwoBMode::Pulse,
    TwoBMode::Bounce,
    TwoBMode::Continuous,
    TwoBMode::Flo,
    TwoBMode::ASplit,
    TwoBMode::BSplit,
    TwoBMode::Wave,
    TwoBMode::Waterfall,
    TwoBMode::Squeeze,
    TwoBMode::Milk,
    TwoBMode::Throb,
    TwoBMode::Thrust,
    TwoBMode::Cycle,
    TwoBMode::Twist,
    TwoBMode::Random,
    TwoBMode::Step,
    TwoBMode::Training,
];

const MODE_NAMES: [&str; 17] = [
    "Pulse",
    "Bounce",
    "Continuous",
    "Flo",
    "ASplit",
    "BSplit",
    "Wave",
    "Waterfall",
    "Squeeze",
    "Milk",
    "Throb",
    "Thrust",
    "Cycle",
    "Twist",
    "Random",
    "Step",
    "Training",
];

fn parser_error(message: &str) -> TwoBError {
    TwoBError::ParserError(message.to_string())
}

#[test]
fn mode_ordinals_round_trip() {
    for (ordinal, mode) in MODES.iter().enumerate() {
        assert_eq!(u8::from(*mode), ordinal as u8);
        assert_eq!(TwoBMode::try_from(ordinal as u8), Ok(*mode));
        assert_eq!(TwoBMode::try_from(u8::from(*mode)), Ok(*mode));
    }
}

#[test]
fn mode_names_round_trip() {
    for (mode, name) in MODES.iter().zip(MODE_NAMES.iter()) {
        assert_eq!(mode.to_string(), *name);
        assert_eq!(TwoBMode::from_str(name), Ok(*mode));
        assert_eq!(TwoBMode::from_str(&mode.to_string()), Ok(*mode));
    }
}

#[test]
fn mode_ordinal_out_of_range() {
    assert_eq!(
        TwoBMode::try_from(17),
        Err(parser_error("No discriminant in enum `TwoBMode` matches the value `17`"))
    );
    assert_eq!(
        TwoBMode::try_from(255),
        Err(parser_error("No discriminant in enum `TwoBMode` matches the value `255`"))
    );
    assert_eq!(TwoBMode::try_from(16), Ok(TwoBMode::Training));
}

#[test]
fn mode_name_unknown() {
    assert_eq!(
        TwoBMode::from_str("pulse"),
        Err(parser_error("No variant of enum `TwoBMode` is named `pulse`"))
    );
    assert_eq!(
        TwoBMode::from_str(""),
        Err(parser_error("No variant of enum `TwoBMode` is named ``"))
    );
    assert_eq!(
        TwoBMode::from_str("Pulse "),
        Err(parser_error("No variant of enum `TwoBMode` is named `Pulse `"))
    );
}

#[test]
fn modes_are_ordered_by_declaration() {
    assert!(TwoBMode::Pulse < TwoBMode::Bounce);
    assert!(TwoBMode::Step < TwoBMode::Training);
}

#[test]
fn bias_round_trips() {
    let all = [TwoBBias::A, TwoBBias::B, TwoBBias::AVERAGE, TwoBBias::MAX];
    let names = ["A", "B", "AVERAGE", "MAX"];
    for (ordinal, bias) in all.iter().enumerate() {
        assert_eq!(u8::from(*bias), ordinal as u8);
        assert_eq!(TwoBBias::try_from(ordinal as u8), Ok(*bias));
        assert_eq!(bias.to_string(), names[ordinal]);
        assert_eq!(TwoBBias::from_str(names[ordinal]), Ok(*bias));
    }
    assert_eq!(
        TwoBBias::try_from(4),
        Err(parser_error("No discriminant in enum `TwoBBias` matches the value `4`"))
    );
    assert_eq!(
        TwoBBias::from_str("Max"),
        Err(parser_error("No variant of enum `TwoBBias` is named `Max`"))
    );
}

#[test]
fn map_round_trips() {
    let all = [TwoBMap::A, TwoBMap::B, TwoBMap::C];
    let names = ["A", "B", "C"];
    for (ordinal, map) in all.iter().enumerate() {
        assert_eq!(u8::from(*map), ordinal as u8);
        assert_eq!(TwoBMap::try_from(ordinal as u8), Ok(*map));
        assert_eq!(map.to_string(), names[ordinal]);
        assert_eq!(TwoBMap::from_str(names[ordinal]), Ok(*map));
    }
    assert_eq!(
        TwoBMap::try_from(3),
        Err(parser_error("No discriminant in enum `TwoBMap` matches the value `3`"))
    );
    assert_eq!(
        TwoBMap::from_str("D"),
        Err(parser_error("No variant of enum `TwoBMap` is named `D`"))
    );
}

#[test]
fn ramp_round_trips() {
    let all = [TwoBRamp::X1, TwoBRamp::X2, TwoBRamp::X3, TwoBRamp::X4];
    let names = ["X1", "X2", "X3", "X4"];
    for (ordinal, ramp) in all.iter().enumerate() {
        assert_eq!(u8::from(*ramp), ordinal as u8);
        assert_eq!(TwoBRamp::try_from(ordinal as u8), Ok(*ramp));
        assert_eq!(ramp.to_string(), names[ordinal]);
        assert_eq!(TwoBRamp::from_str(names[ordinal]), Ok(*ramp));
    }
    assert_eq!(
        TwoBRamp::try_from(4),
        Err(parser_error("No discriminant in enum `TwoBRamp` matches the value `4`"))
    );
    assert_eq!(
        TwoBRamp::from_str("X5"),
        Err(parser_error("No variant of enum `TwoBRamp` is named `X5`"))
    );
}

#[test]
fn warp_round_trips() {
    let all = [
        TwoBWarp::X1,
        TwoBWarp::X2,
        TwoBWarp::X4,
        TwoBWarp::X8,
        TwoBWarp::X16,
        TwoBWarp::X32,
    ];
    let names = ["X1", "X2", "X4", "X8", "X16", "X32"];
    for (ordinal, warp) in all.iter().enumerate() {
        assert_eq!(u8::from(*warp), ordinal as u8);
        assert_eq!(TwoBWarp::try_from(ordinal as u8), Ok(*warp));
        assert_eq!(warp.to_string(), names[ordinal]);
        assert_eq!(TwoBWarp::from_str(names[ordinal]), Ok(*warp));
    }
    assert_eq!(
        TwoBWarp::try_from(6),
        Err(parser_error("No discriminant in enum `TwoBWarp` matches the value `6`"))
    );
    assert_eq!(
        TwoBWarp::from_str("X3"),
        Err(parser_error("No variant of enum `TwoBWarp` is named `X3`"))
    );
}

#[test]
fn power_letters() {
    assert_eq!(TwoBPower::HIGH.value(), 'H');
    assert_eq!(TwoBPower::LOW.value(), 'L');
    assert_eq!(TwoBPower::DYNAMIC.value(), 'Y');
    assert_eq!(TwoBPower::try_from("H".to_string()), Ok(TwoBPower::HIGH));
    assert_eq!(TwoBPower::try_from("L".to_string()), Ok(TwoBPower::LOW));
}

#[test]
fn power_d_reads_as_low_and_dynamic_does_not_come_back() {
    assert_eq!(TwoBPower::try_from("D".to_string()), Ok(TwoBPower::LOW));
    assert_eq!(
        TwoBPower::try_from(TwoBPower::DYNAMIC.value().to_string()),
        Err(parser_error("Cannot parse Power from `Y`"))
    );
    assert_eq!(
        TwoBPower::try_from("".to_string()),
        Err(parser_error("Cannot parse Power from ``"))
    );
    assert_eq!(
        TwoBPower::try_from("HL".to_string()),
        Err(parser_error("Cannot parse Power from `HL`"))
    );
    assert_eq!(
        TwoBPower::try_from("h".to_string()),
        Err(parser_error("Cannot parse Power from `h`"))
    );
}

#[test]
fn power_names_round_trip() {
    let all = [TwoBPower::HIGH, TwoBPower::LOW, TwoBPower::DYNAMIC];
    let names = ["HIGH", "LOW", "DYNAMIC"];
    for (power, name) in all.iter().zip(names.iter()) {
        assert_eq!(power.to_string(), *name);
        assert_eq!(TwoBPower::from_str(name), Ok(*power));
    }
    assert_eq!(
        TwoBPower::from_str("H"),
        Err(parser_error("No variant of enum `TwoBPower` is named `H`"))
    );
}

#[test]
fn channel_letters_and_names() {
    let all = [TwoBChannel::A, TwoBChannel::B, TwoBChannel::C, TwoBChannel::D];
    let letters = ['A', 'B', 'C', 'D'];
    for (channel, letter) in all.iter().zip(letters.iter()) {
        assert_eq!(channel.value(), *letter);
        assert_eq!(channel.to_string(), letter.to_string());
        assert_eq!(TwoBChannel::from_str(&letter.to_string()), Ok(*channel));
    }
    assert_eq!(
        TwoBChannel::from_str("E"),
        Err(parser_error("No variant of enum `TwoBChannel` is named `E`"))
    );
    assert_eq!(
        TwoBChannel::from_str("a"),
        Err(parser_error("No variant of enum `TwoBChannel` is named `a`"))
    );
}

#[test]
fn error_kinds() {
    assert_eq!(TwoBError::parser("bad").to_string(), "ParserError");
    assert_eq!(TwoBError::connection("gone").to_string(), "ConnectionError");
    assert_eq!(TwoBError::parser("bad"), TwoBError::ParserError("bad".to_string()));
    assert_eq!(
        TwoBError::connection("gone"),
        TwoBError::ConnectionError("gone".to_string())
    );
    let e = TwoBError::parser("bad");
    assert_eq!(e.clone(), e);
}
