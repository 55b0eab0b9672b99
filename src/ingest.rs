use vstd::prelude::*;
use crate::decode::{decode_payload, decode_spec, DecodeError};
use crate::reading::{new_reading, TDS};
use crate::store::{
    descending, has_id, latest_spec, lemma_newest_first, recent_spec, Store, StoreError,
};

verus! {

/// Where the ingestion loop stands.
#[derive(Clone, Copy, Debug, PartialEq, Eq, Structural)]
pub enum Phase {
    /// Waiting for the broker to acknowledge the subscription.
    Subscribing,
    /// Subscribed; waiting for the next message.
    Receiving,
    /// A value text was handed out to be read as a number.
    AwaitingNumber,
    /// The loop has ended.
    Stopped,
}

/// What the transport, or the reading of a number, reports to the loop.
#[derive(Debug)]
pub enum Event {
    /// The broker accepted the subscription.
    SubscribeAcked,
    /// The subscription could not be made.
    SubscribeFailed,
    /// A message was published on the topic.
    Publish(Vec<u8>),
    /// Any other transport event (acknowledgements, pings).
    Other,
    /// The value text was read as a number (its bits), or was none.
    NumberParsed(Option<u64>),
    /// The transport failed for good.
    TransportFailed,
}

/// What the loop asks its driver to do next.
#[derive(Debug)]
pub enum Action {
    /// Nothing; wait for the next event.
    Wait,
    /// Read this text as a number and report it with `NumberParsed`.
    ParseNumber(String),
    /// Persist this reading.
    Insert(TDS),
    /// The message was dropped for this reason; wait for the next event.
    Drop(DecodeError),
    /// Stop the loop.
    Exit,
}

/// The decisions of the ingestion loop.
pub struct Ingestor {
    pub phase: Phase,
}

impl Ingestor {
    /// A loop that waits for its subscription to be acknowledged.
    pub fn new() -> (r: Ingestor)
        ensures
            r.phase == Phase::Subscribing,
    {
        Ingestor { phase: Phase::Subscribing }
    }

    /// Takes one event and says what to do.
    pub fn step(&mut self, event: Event) -> (r: Action)
        ensures
            old(self).phase == Phase::Stopped ==> final(self).phase == Phase::Stopped && r is Exit,
            event is TransportFailed ==> final(self).phase == Phase::Stopped && r is Exit,
            old(self).phase == Phase::Subscribing ==> match event {
                Event::SubscribeAcked => final(self).phase == Phase::Receiving && r is Wait,
                Event::SubscribeFailed => final(self).phase == Phase::Stopped && r is Exit,
                Event::TransportFailed => true,
                _ => final(self).phase == Phase::Subscribing && r is Wait,
            },
            old(self).phase == Phase::Receiving ==> match event {
                Event::Publish(p) => match decode_spec(p@) {
                    Ok(t) => final(self).phase == Phase::AwaitingNumber
                        && (r matches Action::ParseNumber(s) && s@ == t),
                    Err(e) => final(self).phase == Phase::Receiving && r == Action::Drop(e),
                },
                Event::TransportFailed => true,
                _ => final(self).phase == Phase::Receiving && r is Wait,
            },
            old(self).phase == Phase::AwaitingNumber ==> match event {
                Event::NumberParsed(Some(b)) => final(self).phase == Phase::Receiving
                    && (r matches Action::Insert(t) && t.tds_ppm_bits == b),
                Event::NumberParsed(None) => final(self).phase == Phase::Receiving
                    && r == Action::Drop(DecodeError::InvalidNumber),
                Event::TransportFailed => true,
                _ => final(self).phase == Phase::AwaitingNumber && r is Wait,
            },
    {
        if self.phase == Phase::Stopped {
            return Action::Exit;
        }
        match event {
            Event::TransportFailed => {
                self.phase = Phase::Stopped;
                Action::Exit
            },
            Event::SubscribeAcked => {
                if self.phase == Phase::Subscribing {
                    self.phase = Phase::Receiving;
                }
                Action::Wait
            },
            Event::SubscribeFailed => {
                if self.phase == Phase::Subscribing {
                    self.phase = Phase::Stopped;
                    Action::Exit
                } else {
                    Action::Wait
                }
            },
            Event::Publish(p) => {
                if self.phase == Phase::Receiving {
                    match decode_payload(p) {
                        Ok(t) => {
                            self.phase = Phase::AwaitingNumber;
                            Action::ParseNumber(t)
                        },
                        Err(e) => Action::Drop(e),
                    }
                } else {
                    Action::Wait
                }
            },
            Event::Other => Action::Wait,
            Event::NumberParsed(n) => {
                if self.phase == Phase::AwaitingNumber {
                    self.phase = Phase::Receiving;
                    match n {
                        Some(b) => Action::Insert(new_reading(b)),
                        None => Action::Drop(DecodeError::InvalidNumber),
                    }
                } else {
                    Action::Wait
                }
            },
        }
    }
}


/// The rows after an action is carried out: an insert of a reading whose
/// identifier is free appends it; anything else leaves the rows as they were.
pub open spec fn after_action(rows: Seq<TDS>, action: Action) -> Seq<TDS> {
    match action {
        Action::Insert(t) => if has_id(rows, t.id) {
            rows
        } else {
            rows.push(t)
        },
        _ => rows,
    }
}

/// Carries out the store's part of an action: persists the reading of an
/// `Insert`; every other action leaves the store as it is.
pub fn persist(store: &mut Store, action: &Action) -> (r: Result<(), StoreError>)
    requires
        old(store).wf(),
    ensures
        final(store).wf(),
        final(store)@ == after_action(old(store)@, *action),
        r is Err <==> (action matches Action::Insert(t) && has_id(old(store)@, t.id)),
{
    match action {
        Action::Insert(t) => store.insert(*t),
        _ => Ok(()),
    }
}

/// A reading of a well-formed message, once persisted, is the latest one, and
/// carries the value that was read from the message.
pub proof fn lemma_persisted_reading_is_latest(rows: Seq<TDS>, t: TDS, bits: u64)
    requires
        t.tds_ppm_bits == bits,
        !has_id(rows, t.id),
    ensures
        latest_spec(after_action(rows, Action::Insert(t))) == Some(t),
        latest_spec(after_action(rows, Action::Insert(t)))->Some_0.tds_ppm_bits == bits,
{
}

/// A payload that does not decode, or whose value is not a number, is dropped
/// and leaves the store unchanged.
pub proof fn lemma_malformed_message_keeps_store(rows: Seq<TDS>, payload: Seq<u8>)
    requires
        decode_spec(payload) is Err,
    ensures
        after_action(rows, Action::Drop(decode_spec(payload)->Err_0)) == rows,
        after_action(rows, Action::Drop(DecodeError::InvalidNumber)) == rows,
{
}

/// The recent history never holds more than `limit` readings, and its
/// timestamps never increase.
pub proof fn lemma_recent_bounded_and_descending(rows: Seq<TDS>, limit: nat)
    ensures
        recent_spec(rows, limit).len() <= limit,
        descending(recent_spec(rows, limit)),
{
    lemma_newest_first(rows);
}

/// Reading twice from a store with no insert in between gives the same
/// latest reading and the same recent history.
pub proof fn lemma_reads_repeatable(before: Seq<TDS>, after: Seq<TDS>, limit: nat)
    requires
        before == after,
    ensures
        latest_spec(before) == latest_spec(after),
        recent_spec(before, limit) == recent_spec(after, limit),
{
}

} // verus!
