//! The connection hub: one slot that holds the connection to the most
//! recently accepted peer, and the decisions of the accept loop and of a send.
//!
//! The listener, the handshake and the write are the caller's. `C` is the
//! caller's handle of a live connection; the hub stores it and hands it back,
//! and never looks inside.

use vstd::prelude::*;
use vstd::string::*;

verus! {

/// Why the hub stopped serving.
#[derive(Debug)]
pub enum HubError {
    /// The listener could not be bound; the text is the reason.
    Bind(String),
    /// The listener became unusable; the text is the reason.
    Listener(String),
}

impl HubError {
    /// The reason that goes with the error.
    pub open spec fn message_text(self) -> Seq<char> {
        match self {
            HubError::Bind(reason) => reason@,
            HubError::Listener(reason) => reason@,
        }
    }

    /// Returns the reason of the failure, as the listener gave it.
    pub fn message(&self) -> (message: String)
        ensures
            message@ == self.message_text(),
    {
        match self {
            HubError::Bind(reason) => reason.clone(),
            HubError::Listener(reason) => reason.clone(),
        }
    }
}

/// The slot for the one connection that sends go to.
#[derive(Debug)]
pub struct ConnectionSlot<C> {
    current: Option<C>,
}

impl<C> View for ConnectionSlot<C> {
    type V = Option<C>;

    /// The connection in the slot, if there is one.
    closed spec fn view(&self) -> Option<C> {
        self.current
    }
}

impl<C> ConnectionSlot<C> {
    /// The connection in the slot, if there is one.
    pub fn current(&self) -> (connection: Option<&C>)
        ensures
            match connection {
                Some(c) => self@ == Some(*c),
                None => self@ is None,
            },
    {
        self.current.as_ref()
    }
}

/// What the listener reports to the accept loop.
pub enum ListenerEvent<C> {
    /// A peer connected and completed the handshake.
    Connected(C),
    /// One candidate connection failed before it was usable.
    CandidateFailed(String),
    /// The listener itself failed.
    ListenerFailed(String),
}

/// What the accept loop does next.
pub enum ServeStep {
    /// Wait for the next report of the listener.
    Continue,
    /// End the loop and surface the failure.
    Stop(HubError),
}

/// The address on which the hub listens.
pub fn bind_address() -> (address: &'static str)
    ensures
        address@ == "127.0.0.1:9527"@,
{
    "127.0.0.1:9527"
}

/// The slot after one report of the listener: a new connection takes it over,
/// whatever was there; a failure leaves it as it was.
pub open spec fn slot_after<C>(slot: Option<C>, event: ListenerEvent<C>) -> Option<C> {
    match event {
        ListenerEvent::Connected(connection) => Some(connection),
        ListenerEvent::CandidateFailed(_) => slot,
        ListenerEvent::ListenerFailed(_) => slot,
    }
}

/// The slot after the accept loop has run over `events`, up to the first
/// failure of the listener, where the loop ends.
pub open spec fn slot_after_all<C>(slot: Option<C>, events: Seq<ListenerEvent<C>>) -> Option<C>
    decreases events.len(),
{
    if events.len() == 0 || events[0] is ListenerFailed {
        slot
    } else {
        slot_after_all(slot_after(slot, events[0]), events.drop_first())
    }
}

/// Starts the hub from the outcome of binding the listener. Where the
/// listener is bound, it is handed back beside an empty slot; where it is not,
/// the failure is surfaced and there is no hub. `L` is the caller's handle of
/// the listener.
pub fn start<L, C>(bound: Result<L, String>) -> (hub: Result<(L, ConnectionSlot<C>), HubError>)
    ensures
        match bound {
            Ok(listener) => hub matches Ok((handle, slot)) && handle == listener && slot@ is None,
            Err(reason) => hub matches Err(error) && error == HubError::Bind(reason),
        },
{
    match bound {
        Ok(listener) => Ok((listener, ConnectionSlot { current: None })),
        Err(reason) => Err(HubError::Bind(reason)),
    }
}

/// Takes one report of the listener. A new connection replaces the one in the
/// slot, which is dropped without being closed. A candidate that failed
/// changes nothing and the loop goes on. A failure of the listener changes
/// nothing and ends the loop.
pub fn serve_step<C>(slot: &mut ConnectionSlot<C>, event: ListenerEvent<C>) -> (step: ServeStep)
    ensures
        final(slot)@ == slot_after(old(slot)@, event),
        match event {
            ListenerEvent::Connected(_) => step is Continue,
            ListenerEvent::CandidateFailed(_) => step is Continue && *final(slot) == *old(slot),
            ListenerEvent::ListenerFailed(reason) => step == ServeStep::Stop(
                HubError::Listener(reason),
            ) && *final(slot) == *old(slot),
        },
{
    match event {
        ListenerEvent::Connected(connection) => {
            slot.current = Some(connection);
            ServeStep::Continue
        },
        ListenerEvent::CandidateFailed(_) => ServeStep::Continue,
        ListenerEvent::ListenerFailed(reason) => ServeStep::Stop(HubError::Listener(reason)),
    }
}

/// Routes one message. With a connection in the slot, the message is to be
/// written to it as a single text frame: the connection and the text of the
/// frame are returned. With an empty slot the message is dropped, and that is
/// no error.
pub fn send<C>(slot: &mut ConnectionSlot<C>, message: String) -> (outbound: Option<
    (&mut C, String),
>)
    ensures
        outbound is None <==> old(slot)@ is None,
        match outbound {
            None => final(slot)@ is None,
            Some((peer, frame)) => old(slot)@ == Some(*peer) && final(slot)@ == Some(*final(peer))
                && frame == message,
        },
{
    match slot.current.as_mut() {
        None => None,
        Some(peer) => Some((peer, message)),
    }
}

/// The line that is logged for a write that failed.
pub open spec fn send_failure_text(reason: Seq<char>) -> Seq<char> {
    "Failed to send WebSocket message: "@ + reason
}

/// Decides what follows a write. A failure is logged and goes no further: it
/// reaches neither the producer of the event nor the slot, and nothing is
/// tried again.
pub fn report_write(outcome: Result<(), String>) -> (line: Option<String>)
    ensures
        match outcome {
            Ok(_) => line is None,
            Err(reason) => line matches Some(text) && text@ == send_failure_text(reason@),
        },
{
    match outcome {
        Ok(()) => None,
        Err(reason) => {
            let mut text = "Failed to send WebSocket message: ".to_owned();
            text.append(reason.as_str());
            Some(text)
        },
    }
}

/// Reports that bring no new connection leave a connection in its slot.
pub proof fn lemma_failures_keep_slot<C>(slot: Option<C>, events: Seq<ListenerEvent<C>>)
    requires
        forall|i: int| 0 <= i < events.len() ==> !(#[trigger] events[i] is Connected),
    ensures
        slot_after_all(slot, events) == slot,
    decreases events.len(),
{
    if events.len() > 0 && !(events[0] is ListenerFailed) {
        assert(!(events[0] is Connected));
        let rest = events.drop_first();
        assert forall|i: int| 0 <= i < rest.len() implies !(#[trigger] rest[i] is Connected) by {
            assert(rest[i] == events[i + 1]);
        }
        lemma_failures_keep_slot(slot, rest);
    }
}

/// The slot belongs to the peer that connected last. Whatever the slot held
/// and whatever the listener reported while it was in service, once `peer` has
/// connected and no other connection has come after it, the slot holds `peer`:
/// a send reaches `peer` and no connection that was there before.
pub proof fn lemma_latest_peer_holds_slot<C>(
    slot: Option<C>,
    before: Seq<ListenerEvent<C>>,
    peer: C,
    after: Seq<ListenerEvent<C>>,
)
    requires
        forall|i: int| 0 <= i < before.len() ==> !(#[trigger] before[i] is ListenerFailed),
        forall|i: int| 0 <= i < after.len() ==> !(#[trigger] after[i] is Connected),
    ensures
        slot_after_all(slot, before + seq![ListenerEvent::Connected(peer)] + after) == Some(peer),
    decreases before.len(),
{
    let events = before + seq![ListenerEvent::Connected(peer)] + after;
    if before.len() == 0 {
        assert(events[0] == ListenerEvent::Connected(peer));
        assert(events.drop_first() =~= after);
        lemma_failures_keep_slot(Some(peer), after);
    } else {
        assert(events[0] == before[0]);
        let rest = before.drop_first();
        assert forall|i: int| 0 <= i < rest.len() implies !(#[trigger] rest[i]
            is ListenerFailed) by {
            assert(rest[i] == before[i + 1]);
        }
        assert(events.drop_first() =~= rest + seq![ListenerEvent::Connected(peer)] + after);
        lemma_latest_peer_holds_slot(slot_after(slot, before[0]), rest, peer, after);
    }
}

} // verus!
