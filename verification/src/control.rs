use vstd::prelude::*;

verus! {

/// An argument of an incoming OSC message, as far as the control surface reads it:
/// a float (of type `F`), a string, or anything else.
pub enum OscArg<F> {
    Float(F),
    Str(String),
    Other,
}

/// What a control message asks the granular sampler to do.
pub enum ControlCommand<F> {
    /// `/sample s`: load the sample file named `s`.
    LoadSample(String),
    /// `/level f`: main output level.
    Level(F),
    /// `/sample_bounds start end`: play region, as fractions of the sample.
    SampleBounds(F, F),
    /// `/tune f`: transposition of the scan, in semitones.
    Tune(F),
    /// `/pan_spread f`: random stereo spread of the grains.
    PanSpread(F),
    /// `/scan_spread f`: random spread of the grain start positions.
    ScanSpread(F),
    /// `/grain_tune f`: transposition of each grain, in semitones.
    GrainTune(F),
    /// `/grains_per_sec f`: grain density.
    GrainsPerSec(F),
    /// `/grain_length f`: grain duration.
    GrainLength(F),
    /// `/grain_env attack release`: attack and release parts of the grain envelope.
    GrainEnvelope(F, F),
    /// Any other address, or a known address with arguments of the wrong shape.
    Unmatched,
}

/// The single float of a one-argument message.
pub open spec fn one_float<F>(args: Seq<OscArg<F>>) -> Option<F> {
    if args.len() == 1 && args[0] is Float {
        Some(args[0]->Float_0)
    } else {
        None
    }
}

/// The two floats of a two-argument message.
pub open spec fn two_floats<F>(args: Seq<OscArg<F>>) -> Option<(F, F)> {
    if args.len() == 2 && args[0] is Float && args[1] is Float {
        Some((args[0]->Float_0, args[1]->Float_0))
    } else {
        None
    }
}

/// The single string of a one-argument message.
pub open spec fn one_string<F>(args: Seq<OscArg<F>>) -> Option<String> {
    if args.len() == 1 && args[0] is Str {
        Some(args[0]->Str_0)
    } else {
        None
    }
}

/// The command that a message with address `addr` and arguments `args` stands for.
pub open spec fn spec_route<F>(addr: Seq<char>, args: Seq<OscArg<F>>) -> ControlCommand<F> {
    if addr == "/sample"@ && one_string(args) is Some {
        ControlCommand::LoadSample(one_string(args)->0)
    } else if addr == "/level"@ && one_float(args) is Some {
        ControlCommand::Level(one_float(args)->0)
    } else if addr == "/sample_bounds"@ && two_floats(args) is Some {
        {
        let (start, end) = two_floats(args)->0;
        ControlCommand::SampleBounds(start, end)
    }
    } else if addr == "/tune"@ && one_float(args) is Some {
        ControlCommand::Tune(one_float(args)->0)
    } else if addr == "/pan_spread"@ && one_float(args) is Some {
        ControlCommand::PanSpread(one_float(args)->0)
    } else if addr == "/scan_spread"@ && one_float(args) is Some {
        ControlCommand::ScanSpread(one_float(args)->0)
    } else if addr == "/grain_tune"@ && one_float(args) is Some {
        ControlCommand::GrainTune(one_float(args)->0)
    } else if addr == "/grains_per_sec"@ && one_float(args) is Some {
        ControlCommand::GrainsPerSec(one_float(args)->0)
    } else if addr == "/grain_length"@ && one_float(args) is Some {
        ControlCommand::GrainLength(one_float(args)->0)
    } else if addr == "/grain_env"@ && two_floats(args) is Some {
        {
        let (attack, release) = two_floats(args)->0;
        ControlCommand::GrainEnvelope(attack, release)
    }
    } else {
        ControlCommand::Unmatched
    }
}

fn address_is(addr: &String, name: &str) -> (r: bool)
    ensures
        r == (addr@ == name@),
{
    let expected = name.to_owned();
    addr.eq(&expected)
}

fn read_one_float<F: Copy>(args: &Vec<OscArg<F>>) -> (r: Option<F>)
    ensures
        r == one_float(args@),
{
    if args.len() == 1 {
        match &args[0] {
            OscArg::Float(f) => Some(*f),
            _ => None,
        }
    } else {
        None
    }
}

fn read_two_floats<F: Copy>(args: &Vec<OscArg<F>>) -> (r: Option<(F, F)>)
    ensures
        r == two_floats(args@),
{
    if args.len() == 2 {
        match (&args[0], &args[1]) {
            (OscArg::Float(a), OscArg::Float(b)) => Some((*a, *b)),
            _ => None,
        }
    } else {
        None
    }
}

fn read_one_string<F>(args: &Vec<OscArg<F>>) -> (r: Option<String>)
    ensures
        r == one_string(args@),
{
    if args.len() == 1 {
        match &args[0] {
            OscArg::Str(s) => Some(s.clone()),
            _ => None,
        }
    } else {
        None
    }
}

/// Decides what an incoming control message with address `addr` and arguments
/// `args` asks for.
pub fn route_message<F: Copy>(addr: &String, args: &Vec<OscArg<F>>) -> (cmd: ControlCommand<F>)
    ensures
        cmd == spec_route(addr@, args@),
        !(cmd is Unmatched) ==> addr@ == command_address(cmd) && args@ == command_arguments(cmd),
{
    let float = read_one_float(args);
    let floats = read_two_floats(args);
    if address_is(addr, "/sample") {
        if let Some(name) = read_one_string(args) {
            return ControlCommand::LoadSample(name);
        }
    }
    if address_is(addr, "/level") {
        if let Some(f) = float {
            return ControlCommand::Level(f);
        }
    }
    if address_is(addr, "/sample_bounds") {
        if let Some((start, end)) = floats {
            return ControlCommand::SampleBounds(start, end);
        }
    }
    if address_is(addr, "/tune") {
        if let Some(f) = float {
            return ControlCommand::Tune(f);
        }
    }
    if address_is(addr, "/pan_spread") {
        if let Some(f) = float {
            return ControlCommand::PanSpread(f);
        }
    }
    if address_is(addr, "/scan_spread") {
        if let Some(f) = float {
            return ControlCommand::ScanSpread(f);
        }
    }
    if address_is(addr, "/grain_tune") {
        if let Some(f) = float {
            return ControlCommand::GrainTune(f);
        }
    }
    if address_is(addr, "/grains_per_sec") {
        if let Some(f) = float {
            return ControlCommand::GrainsPerSec(f);
        }
    }
    if address_is(addr, "/grain_length") {
        if let Some(f) = float {
            return ControlCommand::GrainLength(f);
        }
    }
    if address_is(addr, "/grain_env") {
        if let Some((attack, release)) = floats {
            return ControlCommand::GrainEnvelope(attack, release);
        }
    }
    ControlCommand::Unmatched
}

/// The address under which `cmd` is sent.
pub open spec fn command_address<F>(cmd: ControlCommand<F>) -> Seq<char> {
    match cmd {
        ControlCommand::LoadSample(_) => "/sample"@,
        ControlCommand::Level(_) => "/level"@,
        ControlCommand::SampleBounds(_, _) => "/sample_bounds"@,
        ControlCommand::Tune(_) => "/tune"@,
        ControlCommand::PanSpread(_) => "/pan_spread"@,
        ControlCommand::ScanSpread(_) => "/scan_spread"@,
        ControlCommand::GrainTune(_) => "/grain_tune"@,
        ControlCommand::GrainsPerSec(_) => "/grains_per_sec"@,
        ControlCommand::GrainLength(_) => "/grain_length"@,
        ControlCommand::GrainEnvelope(_, _) => "/grain_env"@,
        ControlCommand::Unmatched => Seq::empty(),
    }
}

/// The arguments with which `cmd` is sent.
pub open spec fn command_arguments<F>(cmd: ControlCommand<F>) -> Seq<OscArg<F>> {
    match cmd {
        ControlCommand::LoadSample(s) => seq![OscArg::Str(s)],
        ControlCommand::Level(f) => seq![OscArg::Float(f)],
        ControlCommand::SampleBounds(a, b) => seq![OscArg::Float(a), OscArg::Float(b)],
        ControlCommand::Tune(f) => seq![OscArg::Float(f)],
        ControlCommand::PanSpread(f) => seq![OscArg::Float(f)],
        ControlCommand::ScanSpread(f) => seq![OscArg::Float(f)],
        ControlCommand::GrainTune(f) => seq![OscArg::Float(f)],
        ControlCommand::GrainsPerSec(f) => seq![OscArg::Float(f)],
        ControlCommand::GrainLength(f) => seq![OscArg::Float(f)],
        ControlCommand::GrainEnvelope(a, b) => seq![OscArg::Float(a), OscArg::Float(b)],
        ControlCommand::Unmatched => Seq::empty(),
    }
}

/// The ten control addresses.
pub open spec fn is_control_address(addr: Seq<char>) -> bool {
    ||| addr == "/sample"@
    ||| addr == "/level"@
    ||| addr == "/sample_bounds"@
    ||| addr == "/tune"@
    ||| addr == "/pan_spread"@
    ||| addr == "/scan_spread"@
    ||| addr == "/grain_tune"@
    ||| addr == "/grains_per_sec"@
    ||| addr == "/grain_length"@
    ||| addr == "/grain_env"@
}

proof fn reveal_control_addresses()
    ensures
        "/sample"@ =~= seq!['/', 's', 'a', 'm', 'p', 'l', 'e'],
        "/level"@ =~= seq!['/', 'l', 'e', 'v', 'e', 'l'],
        "/sample_bounds"@ =~= seq![
            '/', 's', 'a', 'm', 'p', 'l', 'e', '_', 'b', 'o', 'u', 'n', 'd', 's',
        ],
        "/tune"@ =~= seq!['/', 't', 'u', 'n', 'e'],
        "/pan_spread"@ =~= seq!['/', 'p', 'a', 'n', '_', 's', 'p', 'r', 'e', 'a', 'd'],
        "/scan_spread"@ =~= seq!['/', 's', 'c', 'a', 'n', '_', 's', 'p', 'r', 'e', 'a', 'd'],
        "/grain_tune"@ =~= seq!['/', 'g', 'r', 'a', 'i', 'n', '_', 't', 'u', 'n', 'e'],
        "/grains_per_sec"@ =~= seq![
            '/', 'g', 'r', 'a', 'i', 'n', 's', '_', 'p', 'e', 'r', '_', 's', 'e', 'c',
        ],
        "/grain_length"@ =~= seq![
            '/', 'g', 'r', 'a', 'i', 'n', '_', 'l', 'e', 'n', 'g', 't', 'h',
        ],
        "/grain_env"@ =~= seq!['/', 'g', 'r', 'a', 'i', 'n', '_', 'e', 'n', 'v'],
{
    reveal_strlit("/sample");
    reveal_strlit("/level");
    reveal_strlit("/sample_bounds");
    reveal_strlit("/tune");
    reveal_strlit("/pan_spread");
    reveal_strlit("/scan_spread");
    reveal_strlit("/grain_tune");
    reveal_strlit("/grains_per_sec");
    reveal_strlit("/grain_length");
    reveal_strlit("/grain_env");
}

/// Sending a command under its address with its arguments and routing the message
/// gives the command back.
pub proof fn lemma_route_recovers_command<F>(cmd: ControlCommand<F>)
    requires
        !(cmd is Unmatched),
    ensures
        spec_route(command_address(cmd), command_arguments(cmd)) == cmd,
{
    reveal_control_addresses();
}

/// A message whose address is none of the control addresses is not acted on,
/// whatever its arguments.
pub proof fn lemma_unknown_address_unmatched<F>(addr: Seq<char>, args: Seq<OscArg<F>>)
    requires
        !is_control_address(addr),
    ensures
        spec_route(addr, args) is Unmatched,
{
}

/// A message is acted on only when its address is that of the command it gives
/// and its arguments are exactly that command's arguments, in number, kind and
/// order; every other shape under a control address is not acted on.
pub proof fn lemma_route_matches_shape<F>(addr: Seq<char>, args: Seq<OscArg<F>>)
    ensures
        !(spec_route(addr, args) is Unmatched) ==> addr == command_address(spec_route(addr, args))
            && args == command_arguments(spec_route(addr, args)),
{
    let r = spec_route(addr, args);
    if !(r is Unmatched) {
        if args.len() == 1 {
            assert(args =~= seq![args[0]]);
        } else if args.len() == 2 {
            assert(args =~= seq![args[0], args[1]]);
        }
    }
}

} // verus!
