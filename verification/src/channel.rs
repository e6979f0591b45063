//! The outgoing half of the shared action queue. A panel holds a handle to
//! it once registered; the queue itself (an unbounded, ordered,
//! multi-producer single-consumer channel) is created and drained by the
//! surrounding application, which hands the dispatcher the drained batch.

use vstd::prelude::*;

verus! {

/// tokio's `sync::mpsc::UnboundedSender`, declared so that a panel can hold
/// the outgoing-action handle it is given at registration. The library only
/// stores such a value; enqueueing and draining stay with the surrounding
/// application.
#[verifier::external_type_specification]
#[verifier::external_body]
#[verifier::reject_recursive_types(T)]
pub struct ExUnboundedSender<T>(tokio::sync::mpsc::UnboundedSender<T>);

} // verus!
