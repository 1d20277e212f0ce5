use vstd::prelude::*;

verus! {

/// The sending half of a tokio watch channel: a single-slot, latest-value
/// broadcast of the ordered label list.
#[verifier::external_type_specification]
#[verifier::external_body]
#[verifier::reject_recursive_types(T)]
pub struct ExWatchSender<T>(tokio::sync::watch::Sender<T>);

/// Relies on tokio::sync::watch::Sender::send: it stores `keys` as the
/// channel's latest value when a receiver is alive, and otherwise drops it.
/// Either outcome is acceptable to the caller, so nothing is promised.
#[verifier::external_body]
pub(crate) fn publish(tx: &tokio::sync::watch::Sender<Vec<String>>, keys: Vec<String>) {
    let _ = tx.send(keys);
}

} // verus!
