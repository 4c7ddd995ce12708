use vstd::prelude::*;
use std::sync::mpsc::Sender;

verus! {

/// The sending half of std::sync::mpsc::channel, carried through as an opaque
/// handle: what is queued lives on the other thread's side.
#[verifier::external_type_specification]
#[verifier::external_body]
#[verifier::reject_recursive_types(T)]
pub struct ExSender<T>(Sender<T>);

/// Relies on Clone for std::sync::mpsc::Sender: another handle to the same
/// channel. Nothing is stated of it.
pub assume_specification<T>[ <Sender<T> as Clone>::clone ](tx: &Sender<T>) -> Sender<T>;

/// Relies on std::sync::mpsc::Sender::send, which queues the value for the
/// receiving side, or hands it back in an error once that side is gone; it
/// never blocks. Whether the receiver is still there is another thread's
/// affair, so nothing is promised of the result.
#[verifier::external_body]
pub(crate) fn post<T>(tx: &Sender<T>, value: T) -> (delivered: bool) {
    tx.send(value).is_ok()
}

} // verus!
