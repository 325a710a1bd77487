//! The message channel: the sending end installs the signal handlers and
//! forwards each caught signal as its number; the receiving end decodes the
//! numbers back into signals.

use crate::catalog::{
    all, from_i32, from_os, is_supported, number_of, os_number, signal_for, unsupported_text,
};
use crate::catalog::Signal;
use simple_signal::Signal as OsSignal;
use std::sync::mpsc::{Receiver, RecvError, SendError, Sender, TryRecvError};
use vstd::prelude::*;
use vstd::string::StringExecFns;

verus! {

/// The sending end of a std channel, opaque to the proofs.
#[verifier::external_type_specification]
#[verifier::external_body]
#[verifier::reject_recursive_types(T)]
pub struct ExSender<T>(Sender<T>);

/// The receiving end of a std channel, opaque to the proofs.
#[verifier::external_type_specification]
#[verifier::external_body]
#[verifier::reject_recursive_types(T)]
pub struct ExReceiver<T>(Receiver<T>);

/// The error of a send whose receiving end is gone; it hands the value back.
#[verifier::external_type_specification]
#[verifier::external_body]
#[verifier::reject_recursive_types(T)]
pub struct ExSendError<T>(SendError<T>);

/// The error of a blocking receive on a channel whose sending ends are gone.
#[verifier::external_type_specification]
pub struct ExRecvError(RecvError);

/// Why a non-blocking receive returned no value: nothing pending, or every
/// sending end gone.
#[verifier::external_type_specification]
pub struct ExTryRecvError(TryRecvError);

/// Relies on std::sync::mpsc::channel: a new channel, its two ends.
pub assume_specification<T>[ std::sync::mpsc::channel::<T> ]() -> (Sender<T>, Receiver<T>);

/// Relies on Sender's `Clone`: another sending end of the same channel.
pub assume_specification<T>[ <Sender<T> as Clone>::clone ](s: &Sender<T>) -> Sender<T>;

/// Relies on Sender::send: queues the value, or fails when the receiving end
/// is gone. What happened depends on other threads, so nothing is promised.
pub assume_specification<T>[ Sender::<T>::send ](s: &Sender<T>, t: T) -> Result<
    (),
    SendError<T>,
>;

/// Relies on Receiver::recv: blocks until a value comes, or fails once every
/// sending end is gone. Which depends on other threads.
pub assume_specification<T>[ Receiver::<T>::recv ](r: &Receiver<T>) -> Result<T, RecvError>;

/// Relies on Receiver::try_recv: a pending value, or why there is none,
/// without blocking. Which depends on other threads.
pub assume_specification<T>[ Receiver::<T>::try_recv ](r: &Receiver<T>) -> Result<
    T,
    TryRecvError,
>;

/// The error message of a receive on a channel whose sending ends are gone.
pub open spec fn disconnected_text() -> Seq<char> {
    "signal channel disconnected"@
}

/// Whether `r` is what a channel number `n` decodes to: its supported
/// signal, or the error that names the number.
pub open spec fn decodes_to(n: int, r: Result<Signal, String>) -> bool {
    match signal_for(n) {
        Some(s) => r == Ok::<Signal, String>(s),
        None => r is Err && r->Err_0@ == unsupported_text(n),
    }
}

/// A new channel whose sending end forwards signals and whose receiving end
/// decodes them.
pub fn new() -> (Sender<i32>, Receiver<i32>) {
    std::sync::mpsc::channel()
}

/// The channel numbers of a batch of caught signals, in the batch's order.
pub fn numbers_of(caught: &[OsSignal]) -> (r: Vec<i32>)
    ensures
        r@.len() == caught@.len(),
        forall|i: int| 0 <= i < r@.len() ==> #[trigger] r@[i] as int == number_of(from_os(caught@[i])),
{
    let mut numbers: Vec<i32> = Vec::new();
    let mut i: usize = 0;
    while i < caught.len()
        invariant
            i <= caught@.len(),
            numbers@.len() == i,
            forall|j: int| 0 <= j < i ==> #[trigger] numbers@[j] as int == number_of(from_os(caught@[j])),
        decreases caught@.len() - i,
    {
        numbers.push(os_number(&caught[i]));
        i += 1;
    }
    numbers
}

/// Sends the numbers of a batch of caught signals in the batch's order,
/// stopping once the receiving end is gone.
fn forward(sender: &Sender<i32>, caught: &[OsSignal]) {
    let numbers = numbers_of(caught);
    let mut i: usize = 0;
    while i < numbers.len()
        invariant
            i <= numbers@.len(),
        decreases numbers@.len() - i,
    {
        if sender.send(numbers[i]).is_err() {
            return;
        }
        i += 1;
    }
}

/// Relies on simple_signal::set_handler: installs a handler for each of
/// `signals`, and on a background thread hands every batch of caught signals
/// to `forward`, which sends them on `sender`.
#[verifier::external_body]
fn install_handler(signals: &Vec<OsSignal>, sender: Sender<i32>) {
    simple_signal::set_handler(signals, move |caught| forward(&sender, caught));
}

/// The sending end of a signal channel.
pub trait SignalSender {
    /// Installs handlers for every supported signal, which send each caught
    /// signal's number on this channel.
    fn prepare_signals(&self);
}

impl SignalSender for Sender<i32> {
    fn prepare_signals(&self) {
        let signals = all();
        install_handler(&signals, self.clone());
    }
}

/// What a blocking receive on a signal channel gives: the decoded signal, an
/// error for a number that stands for no supported signal, or an error once
/// the sending ends are gone.
pub fn decode_received(received: Result<i32, RecvError>) -> (r: Result<Signal, String>)
    ensures
        match received {
            Ok(n) => decodes_to(n as int, r),
            Err(_) => r is Err && r->Err_0@ == disconnected_text(),
        },
{
    match received {
        Ok(n) => from_i32(n),
        Err(_) => Err(String::from_str("signal channel disconnected")),
    }
}

/// What a non-blocking receive on a signal channel gives: `None` when nothing
/// is pending, otherwise as for a blocking receive.
pub fn decode_polled(polled: Result<i32, TryRecvError>) -> (r: Result<Option<Signal>, String>)
    ensures
        match polled {
            Ok(n) => match signal_for(n as int) {
                Some(s) => r == Ok::<Option<Signal>, String>(Some(s)),
                None => r is Err && r->Err_0@ == unsupported_text(n as int),
            },
            Err(TryRecvError::Empty) => r == Ok::<Option<Signal>, String>(None),
            Err(TryRecvError::Disconnected) => r is Err && r->Err_0@ == disconnected_text(),
        },
{
    match polled {
        Ok(n) => match from_i32(n) {
            Ok(s) => Ok(Some(s)),
            Err(e) => Err(e),
        },
        Err(TryRecvError::Empty) => Ok(None),
        Err(TryRecvError::Disconnected) => Err(String::from_str("signal channel disconnected")),
    }
}

/// The receiving end of a signal channel.
pub trait SignalReceiver {
    /// Blocks until a signal comes, or fails once the sending ends are gone.
    fn listen(&self) -> (r: Result<Signal, String>)
        ensures
            r is Ok ==> is_supported(r->Ok_0),
            r is Err ==> r->Err_0@ == disconnected_text() || exists|n: int|
                signal_for(n) is None && r->Err_0@ == #[trigger] unsupported_text(n),
    ;

    /// A pending signal, `None` when nothing is pending, or an error once the
    /// sending ends are gone; never blocks.
    fn try_listen(&self) -> (r: Result<Option<Signal>, String>)
        ensures
            r matches Ok(Some(s)) ==> is_supported(s),
            r is Err ==> r->Err_0@ == disconnected_text() || exists|n: int|
                signal_for(n) is None && r->Err_0@ == #[trigger] unsupported_text(n),
    ;
}

impl SignalReceiver for Receiver<i32> {
    fn listen(&self) -> (r: Result<Signal, String>) {
        decode_received(self.recv())
    }

    fn try_listen(&self) -> (r: Result<Option<Signal>, String>) {
        decode_polled(self.try_recv())
    }
}

} // verus!
