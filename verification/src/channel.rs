use vstd::prelude::*;
use crate::stock::Transaction;
use crossbeam::channel::Receiver;
use crossbeam::channel::Sender;

verus! {

#[verifier::external_type_specification]
#[verifier::external_body]
#[verifier::reject_recursive_types(T)]
pub struct ExSender<T>(Sender<T>);

#[verifier::external_type_specification]
#[verifier::external_body]
#[verifier::reject_recursive_types(T)]
pub struct ExReceiver<T>(Receiver<T>);

/// Relies on crossbeam::channel::Sender::clone: the clone is another handle
/// to the very same channel, indistinguishable from the original through any
/// operation this library performs.
#[verifier::external_body]
pub(crate) fn clone_sender(s: &Sender<Transaction>) -> (r: Sender<Transaction>)
    ensures
        r == *s,
{
    s.clone()
}

/// Relies on crossbeam::channel::Sender::send on an unbounded channel: it
/// never blocks; it fails exactly when every receiver has been dropped, and
/// the error hands the message back unsent.
#[verifier::external_body]
pub(crate) fn send_transaction(s: &Sender<Transaction>, t: Transaction) -> (r: Result<(), Transaction>)
    ensures
        r matches Err(m) ==> m == t,
{
    match s.send(t) {
        Ok(()) => Ok(()),
        Err(e) => Err(e.0),
    }
}

/// Relies on crossbeam::channel::Receiver::iter: it blocks for each next
/// message and yields it, and stops exactly when the channel is empty and
/// every sender addressing it has been dropped.
#[verifier::external_body]
pub(crate) fn recv_all(r: &Receiver<Transaction>) -> (msgs: Vec<Transaction>) {
    r.iter().collect()
}

} // verus!
