//! The catalog of signals: the symbolic signals, their numbers on the
//! message channel, their names, and which of them are supported.

use vstd::prelude::*;
use simple_signal::Signal as OsSignal;
use vstd::string::StringExecFns;

verus! {

/// A process signal, in the order of the signal handling crate's own enum.
/// A signal's number on the message channel is its position in this list.
#[derive(Clone, Copy, PartialEq, Eq, Debug, Structural)]
pub enum Signal {
    Hup,
    Int,
    Quit,
    Ill,
    Abrt,
    Fpe,
    Kill,
    Segv,
    Pipe,
    Alrm,
    Term,
}

/// The signal handling crate's own signal enum, whose variants verified code
/// reads and builds.
#[verifier::external_type_specification]
pub struct ExOsSignal(OsSignal);

/// The symbolic signal that a signal of the handling crate stands for.
pub open spec fn from_os(o: OsSignal) -> Signal {
    match o {
        OsSignal::Hup => Signal::Hup,
        OsSignal::Int => Signal::Int,
        OsSignal::Quit => Signal::Quit,
        OsSignal::Ill => Signal::Ill,
        OsSignal::Abrt => Signal::Abrt,
        OsSignal::Fpe => Signal::Fpe,
        OsSignal::Kill => Signal::Kill,
        OsSignal::Segv => Signal::Segv,
        OsSignal::Pipe => Signal::Pipe,
        OsSignal::Alrm => Signal::Alrm,
        OsSignal::Term => Signal::Term,
    }
}

/// The number that stands for `s` on the message channel.
pub open spec fn number_of(s: Signal) -> int {
    match s {
        Signal::Hup => 0,
        Signal::Int => 1,
        Signal::Quit => 2,
        Signal::Ill => 3,
        Signal::Abrt => 4,
        Signal::Fpe => 5,
        Signal::Kill => 6,
        Signal::Segv => 7,
        Signal::Pipe => 8,
        Signal::Alrm => 9,
        Signal::Term => 10,
    }
}

/// Whether handlers are installed for `s`. Quit, Kill and Segv are left out:
/// they dump core, cannot be caught, or report a fault in the signalled
/// thread itself.
pub open spec fn is_supported(s: Signal) -> bool {
    !(s is Quit || s is Kill || s is Segv)
}

/// The supported signal that a channel number stands for, if any.
pub open spec fn signal_for(n: int) -> Option<Signal> {
    if n == 0 {
        Some(Signal::Hup)
    } else if n == 1 {
        Some(Signal::Int)
    } else if n == 3 {
        Some(Signal::Ill)
    } else if n == 4 {
        Some(Signal::Abrt)
    } else if n == 5 {
        Some(Signal::Fpe)
    } else if n == 8 {
        Some(Signal::Pipe)
    } else if n == 9 {
        Some(Signal::Alrm)
    } else if n == 10 {
        Some(Signal::Term)
    } else {
        None
    }
}

/// The supported signals, in the order of their numbers.
pub open spec fn supported_signals() -> Seq<Signal> {
    seq![
        Signal::Hup,
        Signal::Int,
        Signal::Ill,
        Signal::Abrt,
        Signal::Fpe,
        Signal::Pipe,
        Signal::Alrm,
        Signal::Term,
    ]
}

/// The character of a decimal digit `d < 10`.
pub open spec fn digit_char(d: nat) -> char {
    seq!['0', '1', '2', '3', '4', '5', '6', '7', '8', '9'][d as int]
}

/// The decimal digits of `n`, without leading zeros.
pub open spec fn decimal_digits(n: nat) -> Seq<char>
    decreases n,
{
    if n < 10 {
        seq![digit_char(n)]
    } else {
        decimal_digits(n / 10).push(digit_char(n % 10))
    }
}

/// `n` written in decimal, with a leading '-' when it is negative.
pub open spec fn decimal_text(n: int) -> Seq<char> {
    if n < 0 {
        seq!['-'] + decimal_digits((-n) as nat)
    } else {
        decimal_digits(n as nat)
    }
}

/// The error message for a channel number that stands for no supported
/// signal.
pub open spec fn unsupported_text(n: int) -> Seq<char> {
    "Got unsupported signal: "@ + decimal_text(n)
}

/// Relies on the `Debug` formatting of `i32`, through `format!`: a '-' for a
/// negative value, then the decimal digits without leading zeros.
#[verifier::external_body]
fn decimal_string(n: i32) -> (r: String)
    ensures
        r@ == decimal_text(n as int),
{
    format!("{:?}", n)
}

/// Decodes a channel number into the supported signal that it stands for.
pub fn from_i32(sig_num: i32) -> (r: Result<Signal, String>)
    ensures
        match signal_for(sig_num as int) {
            Some(s) => r == Ok::<Signal, String>(s),
            None => r is Err && r->Err_0@ == unsupported_text(sig_num as int),
        },
{
    match sig_num {
        0 => Ok(Signal::Hup),
        1 => Ok(Signal::Int),
        3 => Ok(Signal::Ill),
        4 => Ok(Signal::Abrt),
        5 => Ok(Signal::Fpe),
        8 => Ok(Signal::Pipe),
        9 => Ok(Signal::Alrm),
        10 => Ok(Signal::Term),
        _ => {
            let mut message = String::from_str("Got unsupported signal: ");
            let digits = decimal_string(sig_num);
            message.append(digits.as_str());
            Err(message)
        },
    }
}

/// The conventional name of a signal.
pub open spec fn name_of(s: Signal) -> Seq<char> {
    match s {
        Signal::Hup => "SIGHUP"@,
        Signal::Int => "SIGINT"@,
        Signal::Quit => "SIGQUIT"@,
        Signal::Ill => "SIGILL"@,
        Signal::Abrt => "SIGABRT"@,
        Signal::Fpe => "SIGFPE"@,
        Signal::Kill => "SIGKILL"@,
        Signal::Segv => "SIGSEGV"@,
        Signal::Pipe => "SIGPIPE"@,
        Signal::Alrm => "SIGALRM"@,
        Signal::Term => "SIGTERM"@,
    }
}

/// Whether a signal conventionally asks the process to stop.
pub open spec fn terminates(s: Signal) -> bool {
    s is Int || s is Term
}

impl Signal {
    /// The number that stands for this signal on the message channel.
    pub fn to_i32(&self) -> (r: i32)
        ensures
            r as int == number_of(*self),
    {
        match self {
            Signal::Hup => 0,
            Signal::Int => 1,
            Signal::Quit => 2,
            Signal::Ill => 3,
            Signal::Abrt => 4,
            Signal::Fpe => 5,
            Signal::Kill => 6,
            Signal::Segv => 7,
            Signal::Pipe => 8,
            Signal::Alrm => 9,
            Signal::Term => 10,
        }
    }

    /// The conventional name of this signal, such as `SIGHUP`.
    pub fn name(&self) -> (r: &'static str)
        ensures
            r@ == name_of(*self),
    {
        match self {
            Signal::Hup => "SIGHUP",
            Signal::Int => "SIGINT",
            Signal::Quit => "SIGQUIT",
            Signal::Ill => "SIGILL",
            Signal::Abrt => "SIGABRT",
            Signal::Fpe => "SIGFPE",
            Signal::Kill => "SIGKILL",
            Signal::Segv => "SIGSEGV",
            Signal::Pipe => "SIGPIPE",
            Signal::Alrm => "SIGALRM",
            Signal::Term => "SIGTERM",
        }
    }

    /// Whether this signal conventionally asks the process to stop: the
    /// interrupt and the termination request.
    pub fn is_terminating(&self) -> (r: bool)
        ensures
            r == terminates(*self),
    {
        match self {
            Signal::Int | Signal::Term => true,
            _ => false,
        }
    }
}

/// The handling crate's signals for every supported signal, in the order of
/// their numbers: the signals for which handlers are installed.
pub fn all() -> (r: Vec<OsSignal>)
    ensures
        r@.len() == supported_signals().len(),
        forall|i: int| 0 <= i < r@.len() ==> from_os(#[trigger] r@[i]) == supported_signals()[i],
{
    vec![
        OsSignal::Hup,
        OsSignal::Int,
        OsSignal::Ill,
        OsSignal::Abrt,
        OsSignal::Fpe,
        OsSignal::Pipe,
        OsSignal::Alrm,
        OsSignal::Term,
    ]
}

/// The number that stands on the message channel for a signal of the
/// handling crate: its position in that crate's enum.
pub fn os_number(o: &OsSignal) -> (r: i32)
    ensures
        r as int == number_of(from_os(*o)),
{
    match o {
        OsSignal::Hup => 0,
        OsSignal::Int => 1,
        OsSignal::Quit => 2,
        OsSignal::Ill => 3,
        OsSignal::Abrt => 4,
        OsSignal::Fpe => 5,
        OsSignal::Kill => 6,
        OsSignal::Segv => 7,
        OsSignal::Pipe => 8,
        OsSignal::Alrm => 9,
        OsSignal::Term => 10,
    }
}

/// Every supported signal has a number, and that number decodes back to it;
/// no other signal is the decoding of any number.
pub proof fn lemma_catalog_round_trip(s: Signal)
    ensures
        is_supported(s) ==> signal_for(number_of(s)) == Some(s),
        forall|n: int| signal_for(n) == Some(s) ==> is_supported(s) && number_of(s) == n,
{
}

/// The supported signals are exactly those that some number decodes to, each
/// listed once.
pub proof fn lemma_supported_signals_listed()
    ensures
        supported_signals().no_duplicates(),
        forall|s: Signal| supported_signals().contains(s) <==> is_supported(s),
        forall|i: int|
            0 <= i < supported_signals().len() ==> #[trigger] signal_for(
                number_of(supported_signals()[i]),
            ) == Some(supported_signals()[i]),
{
    assert(supported_signals().contains(Signal::Hup) && supported_signals()[0] == Signal::Hup);
    assert(supported_signals()[1] == Signal::Int);
    assert(supported_signals()[2] == Signal::Ill);
    assert(supported_signals()[3] == Signal::Abrt);
    assert(supported_signals()[4] == Signal::Fpe);
    assert(supported_signals()[5] == Signal::Pipe);
    assert(supported_signals()[6] == Signal::Alrm);
    assert(supported_signals()[7] == Signal::Term);
}

} // verus!
