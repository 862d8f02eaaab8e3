//! The decisions of the telemetry consumer.
//!
//! The consumer takes one delivery at a time from the queue, decodes its
//! body, hands the record to the store and answers the broker. What is
//! decided on the way stands here, as a state machine for one delivery; the
//! caller owns the queue and the store, does what a step asks for and reports
//! how it went.
//!
//! | state    | event              | next state                 |
//! |----------|--------------------|----------------------------|
//! | Received | decoding fails     | Resolved, nack and drop    |
//! | Received | decoding succeeds  | Decoded                    |
//! | Decoded  | the write succeeds | Resolved, ack              |
//! | Decoded  | the write fails    | Resolved, nack and requeue |
//!
//! A body that cannot be decoded stays so, hence it is dropped; a write that
//! failed may succeed later, hence the delivery goes back to the queue.

use crate::decoder::{decode, decoded_body};
use crate::error::DecodeError;
use crate::models::drone_status::{DroneStatus, DroneStatusView};
use vstd::prelude::*;

verus! {

/// The settings with which the queue is consumed.
#[derive(Clone, Debug, PartialEq, Eq)]
pub struct QueueConfig {
    /// Address of the broker.
    pub endpoint: String,
    /// Name of the queue that carries the telemetry.
    pub queue_name: String,
}

impl QueueConfig {
    /// The settings for the values that the environment gives. Both are
    /// required: there are settings exactly where both are given.
    pub fn resolve(endpoint: Option<String>, queue_name: Option<String>) -> (config: Option<
        QueueConfig,
    >)
        ensures
            match config {
                Some(c) => endpoint == Some(c.endpoint) && queue_name == Some(c.queue_name),
                None => endpoint is None || queue_name is None,
            },
    {
        match (endpoint, queue_name) {
            (Some(endpoint), Some(queue_name)) => Some(QueueConfig { endpoint, queue_name }),
            _ => None,
        }
    }
}

/// The tag under which the consumer registers with the broker.
pub fn consumer_tag() -> (tag: &'static str)
    ensures
        tag@ == "my_consumer"@,
{
    "my_consumer"
}

/// How a delivery is answered to the broker.
#[derive(Clone, Copy, Debug, PartialEq, Eq, Structural)]
pub enum Disposition {
    /// Acknowledge: the record is stored.
    Ack,
    /// Reject without requeue: the body will never decode.
    NackDrop,
    /// Reject with requeue: the store failed, the delivery is to come again.
    NackRequeue,
}

impl Disposition {
    /// Whether the delivery is acknowledged.
    pub fn is_ack(&self) -> (ack: bool)
        ensures
            ack == (*self == Disposition::Ack),
    {
        match self {
            Disposition::Ack => true,
            _ => false,
        }
    }

    /// Whether the broker is asked to deliver the message again.
    pub fn requeue(&self) -> (requeue: bool)
        ensures
            requeue == (*self == Disposition::NackRequeue),
    {
        match self {
            Disposition::NackRequeue => true,
            _ => false,
        }
    }
}

/// Where one delivery stands.
#[derive(Clone, Copy, Debug, PartialEq, Eq, Structural)]
pub enum DeliveryState {
    /// Taken from the queue, not looked at yet.
    Received,
    /// Decoded; the record is with the store.
    Decoded,
    /// Answered to the broker, in the way given.
    Resolved(Disposition),
}

/// What happens to a delivery.
#[derive(Clone, Copy, Debug, PartialEq, Eq, Structural)]
pub enum Event {
    DecodeSucceeded,
    DecodeFailed,
    WriteSucceeded,
    WriteFailed,
}

/// The state after an event. An event that the state does not wait for
/// changes nothing; in particular a resolved delivery stays as it is.
pub open spec fn transition(state: DeliveryState, event: Event) -> DeliveryState {
    match (state, event) {
        (DeliveryState::Received, Event::DecodeSucceeded) => DeliveryState::Decoded,
        (DeliveryState::Received, Event::DecodeFailed) => DeliveryState::Resolved(
            Disposition::NackDrop,
        ),
        (DeliveryState::Decoded, Event::WriteSucceeded) => DeliveryState::Resolved(
            Disposition::Ack,
        ),
        (DeliveryState::Decoded, Event::WriteFailed) => DeliveryState::Resolved(
            Disposition::NackRequeue,
        ),
        _ => state,
    }
}

/// Moves a delivery on by one event.
pub fn advance(state: DeliveryState, event: Event) -> (next: DeliveryState)
    ensures
        next == transition(state, event),
{
    match (state, event) {
        (DeliveryState::Received, Event::DecodeSucceeded) => DeliveryState::Decoded,
        (DeliveryState::Received, Event::DecodeFailed) => DeliveryState::Resolved(
            Disposition::NackDrop,
        ),
        (DeliveryState::Decoded, Event::WriteSucceeded) => DeliveryState::Resolved(
            Disposition::Ack,
        ),
        (DeliveryState::Decoded, Event::WriteFailed) => DeliveryState::Resolved(
            Disposition::NackRequeue,
        ),
        _ => state,
    }
}

/// The state of a delivery after decoding and, where a record came out of
/// it, after the write: `decodes` says whether the body decodes, `stores`
/// whether the write succeeds.
pub open spec fn outcome(decodes: bool, stores: bool) -> DeliveryState {
    let decoded = transition(
        DeliveryState::Received,
        if decodes {
            Event::DecodeSucceeded
        } else {
            Event::DecodeFailed
        },
    );
    if decoded is Decoded {
        transition(
            decoded,
            if stores {
                Event::WriteSucceeded
            } else {
                Event::WriteFailed
            },
        )
    } else {
        decoded
    }
}

/// What a received delivery asks of the caller.
#[derive(Debug)]
pub enum Step {
    /// The body decoded: write this record to the store, then report with
    /// [`written`].
    Write(DroneStatus),
    /// The body did not decode, for the reason given: answer the broker with
    /// a nack without requeue.
    Reject(DecodeError),
}

impl Step {
    /// The state in which the step leaves the delivery.
    pub open spec fn state(self) -> DeliveryState {
        match self {
            Step::Write(_) => DeliveryState::Decoded,
            Step::Reject(_) => DeliveryState::Resolved(Disposition::NackDrop),
        }
    }

    /// The answer to give to the broker now, if the delivery is resolved.
    pub fn disposition(&self) -> (answer: Option<Disposition>)
        ensures
            answer == match self.state() {
                DeliveryState::Resolved(d) => Some(d),
                _ => None,
            },
    {
        match self {
            Step::Write(_) => None,
            Step::Reject(_) => Some(Disposition::NackDrop),
        }
    }
}

/// Looks at a delivery that was taken from the queue. Where the body decodes
/// the record is to be written; where it does not, the delivery is resolved
/// at once, with a nack without requeue.
pub fn receive(body: &[u8]) -> (step: Step)
    ensures
        match decoded_body(body@) {
            Ok(record) => step matches Step::Write(r) && r@ == record,
            Err(cause) => step == Step::Reject(cause),
        },
        step.state() == transition(
            DeliveryState::Received,
            if decoded_body(body@) is Ok {
                Event::DecodeSucceeded
            } else {
                Event::DecodeFailed
            },
        ),
{
    match decode(body) {
        Ok(record) => Step::Write(record),
        Err(cause) => Step::Reject(cause),
    }
}

/// Resolves a delivery whose record was handed to the store: an ack where
/// the write succeeded, a nack with requeue where it failed.
pub fn written(stored: bool) -> (answer: Disposition)
    ensures
        DeliveryState::Resolved(answer) == transition(
            DeliveryState::Decoded,
            if stored {
                Event::WriteSucceeded
            } else {
                Event::WriteFailed
            },
        ),
        answer == if stored {
            Disposition::Ack
        } else {
            Disposition::NackRequeue
        },
{
    let event = if stored {
        Event::WriteSucceeded
    } else {
        Event::WriteFailed
    };
    match advance(DeliveryState::Decoded, event) {
        DeliveryState::Resolved(answer) => answer,
        _ => Disposition::NackRequeue,
    }
}

/// Every delivery is resolved, whatever happens to it, and in one way only:
/// by a nack without requeue where the body does not decode, by an ack where
/// it decodes and the write succeeds, by a nack with requeue where it decodes
/// and the write fails.
pub proof fn delivery_is_resolved(decodes: bool, stores: bool)
    ensures
        outcome(decodes, stores) == DeliveryState::Resolved(
            if !decodes {
                Disposition::NackDrop
            } else if stores {
                Disposition::Ack
            } else {
                Disposition::NackRequeue
            },
        ),
{
}

/// A resolved delivery stays resolved as it is: no event gives it a second
/// answer.
pub proof fn resolved_is_final(answer: Disposition, event: Event)
    ensures
        transition(DeliveryState::Resolved(answer), event) == DeliveryState::Resolved(answer),
{
}

/// A record is handed to the store only for a delivery that decoded, and
/// only such a delivery is ever acknowledged or requeued.
pub proof fn write_follows_decode(state: DeliveryState, event: Event)
    requires
        transition(state, event) matches DeliveryState::Resolved(answer) && answer
            != Disposition::NackDrop,
        !(state is Resolved),
    ensures
        state is Decoded,
        event is WriteSucceeded || event is WriteFailed,
{
}

} // verus!
