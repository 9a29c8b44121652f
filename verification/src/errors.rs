//! The error taxonomy of one invocation, with verified diagnostic text.

use vstd::prelude::*;
use vstd::string::StringExecFns;
use crate::config::{ConfigStep, spec_mode_number, spec_select_label};

verus! {

/// What could not be opened.
#[derive(Clone, Copy, Debug, PartialEq, Eq, Structural)]
pub enum OpenTarget {
    Device,
    InputFile,
    OutputFile,
}

/// Everything that aborts an invocation. None of these are recovered
/// from: each ends the remaining work and is surfaced to the caller.
#[derive(Debug, PartialEq)]
pub enum SpiError {
    /// The device or a file could not be acquired.
    Open { target: OpenTarget, path: String },
    /// The bus driver rejected one configuration setting; the device may
    /// be left partially configured.
    Configuration { step: ConfigStep },
    /// The byte source could not be fully read.
    InputRead,
    /// A hardware transaction failed.
    Transfer,
    /// The byte sink rejected a write.
    OutputWrite,
}

/// The character for one decimal digit.
pub open spec fn digit_char(d: nat) -> char
    recommends
        d < 10,
{
    if d == 0 {
        '0'
    } else if d == 1 {
        '1'
    } else if d == 2 {
        '2'
    } else if d == 3 {
        '3'
    } else if d == 4 {
        '4'
    } else if d == 5 {
        '5'
    } else if d == 6 {
        '6'
    } else if d == 7 {
        '7'
    } else if d == 8 {
        '8'
    } else {
        '9'
    }
}

/// The decimal digits of a number, most significant first, without
/// leading zeros.
pub open spec fn dec_chars(n: nat) -> Seq<char>
    decreases n,
{
    if n < 10 {
        seq![digit_char(n)]
    } else {
        dec_chars(n / 10).push(digit_char(n % 10))
    }
}

/// The diagnostic line for an error, naming the failing operation and the
/// offending value: enough context to diagnose without re-running.
/// The shell may append the underlying cause.
pub open spec fn spec_message(e: SpiError) -> Seq<char> {
    match e {
        SpiError::Open { target, path } => match target {
            OpenTarget::Device => "Failed to open spidev "@ + path@,
            OpenTarget::InputFile => "Failed to open input file "@ + path@,
            OpenTarget::OutputFile => "Failed to create output file "@ + path@,
        },
        SpiError::Configuration { step } => match step {
            ConfigStep::BitsPerWord(b) => "Failed to set "@ + dec_chars(b as nat) + " bits per word"@,
            ConfigStep::MaxSpeedHz(s) => "Failed to max speed to "@ + dec_chars(s as nat) + " Hz"@,
            ConfigStep::Mode(m) => "Failed to set SPI mode to "@ + dec_chars(spec_mode_number(m) as nat),
            ConfigStep::Select(c) => "Failed to set chip select mode to "@ + spec_select_label(c),
        },
        SpiError::InputRead => "Failed to read input message"@,
        SpiError::Transfer => "SPI transaction failed"@,
        SpiError::OutputWrite => "Failed to write to output stream"@,
    }
}

/// A one-character string for one decimal digit.
fn digit_str(d: u32) -> (r: &'static str)
    requires
        d < 10,
    ensures
        r@ == seq![digit_char(d as nat)],
{
    let r: &'static str = if d == 0 {
        "0"
    } else if d == 1 {
        "1"
    } else if d == 2 {
        "2"
    } else if d == 3 {
        "3"
    } else if d == 4 {
        "4"
    } else if d == 5 {
        "5"
    } else if d == 6 {
        "6"
    } else if d == 7 {
        "7"
    } else if d == 8 {
        "8"
    } else {
        "9"
    };
    proof {
        reveal_strlit("0");
        reveal_strlit("1");
        reveal_strlit("2");
        reveal_strlit("3");
        reveal_strlit("4");
        reveal_strlit("5");
        reveal_strlit("6");
        reveal_strlit("7");
        reveal_strlit("8");
        reveal_strlit("9");
        assert(r@ =~= seq![digit_char(d as nat)]);
    }
    r
}

/// Append the decimal digits of `n`, most significant first.
fn push_decimal(n: u32, out: &mut String)
    ensures
        final(out)@ == old(out)@ + dec_chars(n as nat),
    decreases n,
{
    if n >= 10 {
        proof {
            assert(n / 10 < n) by (nonlinear_arith)
                requires
                    n >= 10,
            ;
        }
        push_decimal(n / 10, out);
        out.append(digit_str(n % 10));
        assert(out@ =~= old(out)@ + dec_chars(n as nat));
    } else {
        out.append(digit_str(n));
        assert(out@ =~= old(out)@ + dec_chars(n as nat));
    }
}

impl SpiError {
    /// The diagnostic line for this error, naming the failing operation
    /// and the offending value.
    pub fn describe(&self) -> (r: String)
        ensures
            r@ == spec_message(*self),
    {
        match self {
            SpiError::Open { target, path } => {
                let mut s = String::from_str(match target {
                    OpenTarget::Device => "Failed to open spidev ",
                    OpenTarget::InputFile => "Failed to open input file ",
                    OpenTarget::OutputFile => "Failed to create output file ",
                });
                s.append(path.as_str());
                s
            },
            SpiError::Configuration { step } => match step {
                ConfigStep::BitsPerWord(b) => {
                    let mut s = String::from_str("Failed to set ");
                    push_decimal(*b as u32, &mut s);
                    s.append(" bits per word");
                    s
                },
                ConfigStep::MaxSpeedHz(v) => {
                    let mut s = String::from_str("Failed to max speed to ");
                    push_decimal(*v, &mut s);
                    s.append(" Hz");
                    s
                },
                ConfigStep::Mode(m) => {
                    let mut s = String::from_str("Failed to set SPI mode to ");
                    push_decimal(m.number() as u32, &mut s);
                    s
                },
                ConfigStep::Select(c) => {
                    let mut s = String::from_str("Failed to set chip select mode to ");
                    s.append(c.label());
                    s
                },
            },
            SpiError::InputRead => String::from_str("Failed to read input message"),
            SpiError::Transfer => String::from_str("SPI transaction failed"),
            SpiError::OutputWrite => String::from_str("Failed to write to output stream"),
        }
    }
}

} // verus!
