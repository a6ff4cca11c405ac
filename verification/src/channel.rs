//! Channels between the interface and its background workers.
use vstd::prelude::*;
use std::sync::mpsc::{Receiver, Sender};

verus! {

/// `std::sync::mpsc::Receiver`, carried through unexamined.
#[verifier::external_type_specification]
#[verifier::external_body]
#[verifier::reject_recursive_types(T)]
pub struct ExReceiver<T>(Receiver<T>);

/// `std::sync::mpsc::Sender`, carried through unexamined.
#[verifier::external_type_specification]
#[verifier::external_body]
#[verifier::reject_recursive_types(T)]
pub struct ExSender<T>(Sender<T>);

/// `std::sync::mpsc::channel`: a new channel. Nothing is stated.
#[verifier::external_body]
pub(crate) fn new_channel<T>() -> (r: (Sender<T>, Receiver<T>)) {
    std::sync::mpsc::channel()
}

/// `Receiver::try_recv`: the next message, if one is waiting. What arrives
/// depends on the sending thread; nothing is stated.
#[verifier::external_body]
pub(crate) fn try_receive<T>(rx: &Receiver<T>) -> (r: Option<T>) {
    rx.try_recv().ok()
}

} // verus!
