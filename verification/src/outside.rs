//! The handle types of tokio that the channels are built on.

use vstd::prelude::*;

verus! {

/// tokio's producer handle of a bounded queue.
#[verifier::external_type_specification]
#[verifier::external_body]
#[verifier::reject_recursive_types(T)]
pub struct ExQueueSender<T>(tokio::sync::mpsc::Sender<T>);

/// tokio's consumer handle of a bounded queue.
#[verifier::external_type_specification]
#[verifier::external_body]
#[verifier::reject_recursive_types(T)]
pub struct ExQueueReceiver<T>(tokio::sync::mpsc::Receiver<T>);

/// tokio's sending handle of a single-use handoff.
#[verifier::external_type_specification]
#[verifier::external_body]
#[verifier::reject_recursive_types(T)]
pub struct ExHandoffSender<T>(tokio::sync::oneshot::Sender<T>);

/// tokio's receiving handle of a single-use handoff.
#[verifier::external_type_specification]
#[verifier::external_body]
#[verifier::reject_recursive_types(T)]
pub struct ExHandoffReceiver<T>(tokio::sync::oneshot::Receiver<T>);

/// tokio's error of a handoff whose sender went away without sending.
#[verifier::external_type_specification]
#[verifier::external_body]
pub struct ExHandoffError(tokio::sync::oneshot::error::RecvError);

} // verus!
