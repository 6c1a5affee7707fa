use granular::control::{route_message, ControlCommand, OscArg};

fn route(addr: &str, args: Vec<OscArg<f32>>) -> ControlCommand<f32> {
    route_message(&addr.to_string(), &args)
}

#[test]
fn routes_sample_file() {
    match route("/sample", vec![OscArg::Str("kick.wav".to_string())]) {
        ControlCommand::LoadSample(name) => assert_eq!(name, "kick.wav"),
        _ => panic!("expected LoadSample"),
    }
}

#[test]
fn routes_one_float_commands() {
    assert!(matches!(route("/level", vec![OscArg::Float(0.5)]), ControlCommand::Level(v) if v == 0.5));
    assert!(matches!(route("/tune", vec![OscArg::Float(-12.0)]), ControlCommand::Tune(v) if v == -12.0));
    assert!(matches!(route("/pan_spread", vec![OscArg::Float(0.25)]), ControlCommand::PanSpread(v) if v == 0.25));
    assert!(matches!(route("/scan_spread", vec![OscArg::Float(0.75)]), ControlCommand::ScanSpread(v) if v == 0.75));
    assert!(matches!(route("/grain_tune", vec![OscArg::Float(7.0)]), ControlCommand::GrainTune(v) if v == 7.0));
    assert!(matches!(route("/grains_per_sec", vec![OscArg::Float(20.0)]), ControlCommand::GrainsPerSec(v) if v == 20.0));
    assert!(matches!(route("/grain_length", vec![OscArg::Float(500.0)]), ControlCommand::GrainLength(v) if v == 500.0));
}

#[test]
fn routes_two_float_commands() {
    assert!(matches!(
        route("/sample_bounds", vec![OscArg::Float(0.1), OscArg::Float(0.9)]),
        ControlCommand::SampleBounds(s, e) if s == 0.1 && e == 0.9
    ));
    assert!(matches!(
        route("/grain_env", vec![OscArg::Float(0.3), OscArg::Float(0.4)]),
        ControlCommand::GrainEnvelope(a, r) if a == 0.3 && r == 0.4
    ));
}

#[test]
fn wrong_argument_shapes_are_unmatched() {
    assert!(matches!(route("/level", vec![]), ControlCommand::Unmatched));
    assert!(matches!(route("/level", vec![OscArg::Str("1".to_string())]), ControlCommand::Unmatched));
    assert!(matches!(route("/level", vec![OscArg::Float(1.0), OscArg::Float(1.0)]), ControlCommand::Unmatched));
    assert!(matches!(route("/sample", vec![OscArg::Float(1.0)]), ControlCommand::Unmatched));
    assert!(matches!(route("/sample_bounds", vec![OscArg::Float(0.1)]), ControlCommand::Unmatched));
    assert!(matches!(route("/grain_env", vec![OscArg::Float(0.1), OscArg::Other]), ControlCommand::Unmatched));
}

#[test]
fn unknown_addresses_are_unmatched() {
    assert!(matches!(route("/volume", vec![OscArg::Float(1.0)]), ControlCommand::Unmatched));
    assert!(matches!(route("", vec![]), ControlCommand::Unmatched));
    assert!(matches!(route("/levels", vec![OscArg::Float(1.0)]), ControlCommand::Unmatched));
    assert!(matches!(route("level", vec![OscArg::Float(1.0)]), ControlCommand::Unmatched));
}
