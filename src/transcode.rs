//! The call of the external transcoder: its arguments and how its exit is read.
use vstd::prelude::*;

verus! {

/// The audio format that every conversion produces. The sample format is
/// always 16-bit signed.
#[derive(Clone, Copy, Debug, PartialEq, Eq, Structural)]
pub struct TargetParams {
    /// Samples per second.
    pub sample_rate: u32,
    /// Number of channels.
    pub channels: u32,
}

impl TargetParams {
    pub fn new(sample_rate: u32, channels: u32) -> (r: TargetParams)
        ensures
            r.sample_rate == sample_rate,
            r.channels == channels,
    {
        TargetParams { sample_rate, channels }
    }
}

/// Why a conversion did not succeed.
#[derive(Clone, Copy, Debug, PartialEq, Eq, Structural)]
pub enum ConversionError {
    /// The transcoder could not be started.
    LaunchFailed,
    /// The transcoder ran and exited with a non-zero status.
    NonZeroExit,
}

/// The character of a decimal digit.
pub open spec fn digit_char(d: nat) -> char {
    seq!['0', '1', '2', '3', '4', '5', '6', '7', '8', '9'][d as int]
}

/// The decimal notation of a number, without sign or leading zeros.
pub open spec fn decimal(n: nat) -> Seq<char>
    decreases n,
{
    if n < 10 {
        seq![digit_char(n)]
    } else {
        decimal(n / 10).push(digit_char(n % 10))
    }
}

/// Relies on `u32::to_string` (through `Display`): the number in decimal.
#[verifier::external_body]
fn decimal_text(n: u32) -> (r: String)
    ensures
        r@ == decimal(n as nat),
{
    n.to_string()
}

/// The name of the transcoder, looked up on the search path.
pub open spec fn transcoder_name() -> Seq<char> {
    seq!['f', 'f', 'm', 'p', 'e', 'g']
}

/// The arguments that convert `input` into `output` at the target format:
/// overwrite any existing output, set rate and channels, 16-bit signed samples.
pub open spec fn transcode_arg_list(params: TargetParams, input: Seq<char>, output: Seq<char>) -> Seq<Seq<char>> {
    seq![
        seq!['-', 'y'],
        seq!['-', 'i'],
        input,
        seq!['-', 'a', 'r'],
        decimal(params.sample_rate as nat),
        seq!['-', 'a', 'c'],
        decimal(params.channels as nat),
        seq!['-', 's', 'a', 'm', 'p', 'l', 'e', '_', 'f', 'm', 't'],
        seq!['s', '1', '6'],
        output,
    ]
}

/// A program to run and its arguments.
pub struct Invocation {
    pub program: String,
    pub args: Vec<String>,
}

/// The texts of a list of strings.
pub open spec fn texts(v: Seq<String>) -> Seq<Seq<char>> {
    v.map_values(|s: String| s@)
}

/// The transcoder call that converts `input` into `output`.
pub fn transcode_invocation(params: &TargetParams, input: &str, output: &str) -> (r: Invocation)
    ensures
        r.program@ == transcoder_name(),
        texts(r.args@) == transcode_arg_list(*params, input@, output@),
{
    proof {
        reveal_strlit("ffmpeg");
        reveal_strlit("-y");
        reveal_strlit("-i");
        reveal_strlit("-ar");
        reveal_strlit("-ac");
        reveal_strlit("-sample_fmt");
        reveal_strlit("s16");
    }
    let program = "ffmpeg".to_owned();
    let mut args: Vec<String> = Vec::new();
    args.push("-y".to_owned());
    args.push("-i".to_owned());
    args.push(input.to_owned());
    args.push("-ar".to_owned());
    args.push(decimal_text(params.sample_rate));
    args.push("-ac".to_owned());
    args.push(decimal_text(params.channels));
    args.push("-sample_fmt".to_owned());
    args.push("s16".to_owned());
    args.push(output.to_owned());
    assert(program@ =~= transcoder_name());
    assert(args@[0]@ =~= seq!['-', 'y']);
    assert(args@[1]@ =~= seq!['-', 'i']);
    assert(args@[3]@ =~= seq!['-', 'a', 'r']);
    assert(args@[5]@ =~= seq!['-', 'a', 'c']);
    assert(args@[7]@ =~= seq!['-', 's', 'a', 'm', 'p', 'l', 'e', '_', 'f', 'm', 't']);
    assert(args@[8]@ =~= seq!['s', '1', '6']);
    assert(texts(args@) =~= transcode_arg_list(*params, input@, output@));
    Invocation { program, args }
}

/// How a transcoder run ended: `launched` whether the process started,
/// `exit_success` whether it then exited with status zero.
pub open spec fn outcome_of(launched: bool, exit_success: bool) -> Result<(), ConversionError> {
    if !launched {
        Err(ConversionError::LaunchFailed)
    } else if !exit_success {
        Err(ConversionError::NonZeroExit)
    } else {
        Ok(())
    }
}

/// Reads the end of a transcoder run. Only a zero exit status is success.
pub fn conversion_outcome(launched: bool, exit_success: bool) -> (r: Result<(), ConversionError>)
    ensures
        r == outcome_of(launched, exit_success),
{
    if !launched {
        Err(ConversionError::LaunchFailed)
    } else if !exit_success {
        Err(ConversionError::NonZeroExit)
    } else {
        Ok(())
    }
}

} // verus!
