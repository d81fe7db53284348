//! The life of a tunnel: it connects to its target, relays bytes between
//! the client and the target while counting them, and is closed.
//!
//! Connecting, reading and writing are done by whoever owns the sockets;
//! this module says what each outcome leads to.

use vstd::prelude::*;

verus! {

/// How many bytes went each way through a tunnel. A count that reaches
/// `u64::MAX` stays there.
#[derive(Clone, Copy, Debug, PartialEq, Eq, Structural)]
pub struct Transfer {
    pub from_client: u64,
    pub from_server: u64,
}

/// Where a tunnel stands in its life.
#[derive(Clone, Copy, Debug, PartialEq, Eq, Structural)]
pub enum TunnelState {
    /// The connection to the target is being opened.
    Connecting,
    /// Bytes are copied both ways; so many have gone through.
    Relaying(Transfer),
    /// Both sockets are released. Nothing follows.
    Closed,
}

/// What happened to a tunnel.
#[derive(Clone, Copy, Debug, PartialEq, Eq, Structural)]
pub enum TunnelEvent {
    /// The connection to the target stands.
    Connected,
    /// The target could not be reached.
    ConnectFailed,
    /// So many bytes of the client were written to the target.
    ClientSent(u64),
    /// So many bytes of the target were written to the client.
    ServerSent(u64),
    /// One side reached the end of its stream.
    EndOfStream,
    /// Reading or writing failed on one side.
    Failed,
}

/// What the owner of the sockets does next.
#[derive(Clone, Copy, Debug, PartialEq, Eq, Structural)]
pub enum TunnelAction {
    /// Go on copying bytes both ways.
    Relay,
    /// The target was not reached: release the client and record the
    /// failure.
    Abort,
    /// Release both sockets and report the bytes that went each way.
    Finish(Transfer),
    /// Release both sockets and record the failure with the bytes that went
    /// each way before it.
    Fail(Transfer),
    /// Nothing: the event does not belong to the state.
    Ignore,
}

/// The state and the action that follow an event.
///
/// A tunnel relays only once it is connected; the first end of stream or
/// failure on either side closes both; an event that cannot happen in a
/// state changes nothing.
pub open spec fn transition(state: TunnelState, event: TunnelEvent) -> (
    TunnelState,
    TunnelAction,
) {
    match (state, event) {
        (TunnelState::Connecting, TunnelEvent::Connected) => (
            TunnelState::Relaying(Transfer { from_client: 0, from_server: 0 }),
            TunnelAction::Relay,
        ),
        (TunnelState::Connecting, TunnelEvent::ConnectFailed) => (
            TunnelState::Closed,
            TunnelAction::Abort,
        ),
        (TunnelState::Relaying(sent), TunnelEvent::ClientSent(bytes)) => (
            TunnelState::Relaying(
                Transfer {
                    from_client: sent.from_client.saturating_add(bytes),
                    from_server: sent.from_server,
                },
            ),
            TunnelAction::Relay,
        ),
        (TunnelState::Relaying(sent), TunnelEvent::ServerSent(bytes)) => (
            TunnelState::Relaying(
                Transfer {
                    from_client: sent.from_client,
                    from_server: sent.from_server.saturating_add(bytes),
                },
            ),
            TunnelAction::Relay,
        ),
        (TunnelState::Relaying(sent), TunnelEvent::EndOfStream) => (
            TunnelState::Closed,
            TunnelAction::Finish(sent),
        ),
        (TunnelState::Relaying(sent), TunnelEvent::Failed) => (
            TunnelState::Closed,
            TunnelAction::Fail(sent),
        ),
        _ => (state, TunnelAction::Ignore),
    }
}

/// The state after a series of events.
pub open spec fn state_after(state: TunnelState, events: Seq<TunnelEvent>) -> TunnelState
    decreases events.len(),
{
    if events.len() == 0 {
        state
    } else {
        state_after(transition(state, events.first()).0, events.drop_first())
    }
}

/// Computes [`transition`].
pub fn tunnel_step(state: TunnelState, event: TunnelEvent) -> (step: (TunnelState, TunnelAction))
    ensures
        step == transition(state, event),
{
    match state {
        TunnelState::Connecting => match event {
            TunnelEvent::Connected => (
                TunnelState::Relaying(Transfer { from_client: 0, from_server: 0 }),
                TunnelAction::Relay,
            ),
            TunnelEvent::ConnectFailed => (TunnelState::Closed, TunnelAction::Abort),
            _ => (state, TunnelAction::Ignore),
        },
        TunnelState::Relaying(sent) => match event {
            TunnelEvent::ClientSent(bytes) => {
                let from_client: u64 = sent.from_client.saturating_add(bytes);
                let sent = Transfer { from_client, from_server: sent.from_server };
                (TunnelState::Relaying(sent), TunnelAction::Relay)
            },
            TunnelEvent::ServerSent(bytes) => {
                let from_server: u64 = sent.from_server.saturating_add(bytes);
                let sent = Transfer { from_client: sent.from_client, from_server };
                (TunnelState::Relaying(sent), TunnelAction::Relay)
            },
            TunnelEvent::EndOfStream => (TunnelState::Closed, TunnelAction::Finish(sent)),
            TunnelEvent::Failed => (TunnelState::Closed, TunnelAction::Fail(sent)),
            _ => (state, TunnelAction::Ignore),
        },
        TunnelState::Closed => (state, TunnelAction::Ignore),
    }
}

/// A closed tunnel stays closed, whatever happens.
pub proof fn lemma_closed_is_final(events: Seq<TunnelEvent>)
    ensures
        state_after(TunnelState::Closed, events) == TunnelState::Closed,
    decreases events.len(),
{
    if events.len() > 0 {
        lemma_closed_is_final(events.drop_first());
    }
}

/// A tunnel never connects a second time.
pub proof fn lemma_no_way_back(state: TunnelState, events: Seq<TunnelEvent>)
    requires
        state != TunnelState::Connecting,
    ensures
        state_after(state, events) != TunnelState::Connecting,
    decreases events.len(),
{
    if events.len() > 0 {
        lemma_no_way_back(transition(state, events.first()).0, events.drop_first());
    }
}

/// Bytes are relayed only on a connection that stands: a tunnel begins to
/// relay when it is connected, goes on while bytes pass, and a target that
/// cannot be reached closes it at once.
pub proof fn lemma_relay_needs_connection(state: TunnelState, event: TunnelEvent)
    ensures
        transition(state, event).1 == TunnelAction::Relay <==> {
            ||| state == TunnelState::Connecting && event == TunnelEvent::Connected
            ||| state is Relaying && (event is ClientSent || event is ServerSent)
        },
        transition(TunnelState::Connecting, TunnelEvent::ConnectFailed) == (
            TunnelState::Closed,
            TunnelAction::Abort,
        ),
{
}

/// The first end of stream or failure closes a relaying tunnel, and what is
/// handed on are the bytes counted until then.
pub proof fn lemma_first_end_closes(sent: Transfer, event: TunnelEvent)
    requires
        event == TunnelEvent::EndOfStream || event == TunnelEvent::Failed,
    ensures
        transition(TunnelState::Relaying(sent), event).0 == TunnelState::Closed,
        transition(TunnelState::Relaying(sent), event).1 == if event == TunnelEvent::EndOfStream {
            TunnelAction::Finish(sent)
        } else {
            TunnelAction::Fail(sent)
        },
{
}

/// The bytes of the client among a series of events.
pub open spec fn client_bytes(events: Seq<TunnelEvent>) -> nat
    decreases events.len(),
{
    if events.len() == 0 {
        0
    } else {
        let bytes: nat = match events.first() {
            TunnelEvent::ClientSent(bytes) => bytes as nat,
            _ => 0,
        };
        bytes + client_bytes(events.drop_first())
    }
}

/// The bytes of the target among a series of events.
pub open spec fn server_bytes(events: Seq<TunnelEvent>) -> nat
    decreases events.len(),
{
    if events.len() == 0 {
        0
    } else {
        let bytes: nat = match events.first() {
            TunnelEvent::ServerSent(bytes) => bytes as nat,
            _ => 0,
        };
        bytes + server_bytes(events.drop_first())
    }
}

/// A count of bytes, held at `u64::MAX` where it would pass it.
pub open spec fn capped(bytes: int) -> u64 {
    if bytes > u64::MAX {
        u64::MAX
    } else {
        bytes as u64
    }
}

/// While bytes pass, a tunnel goes on relaying, and each count is the sum of
/// what went that way: no byte is counted twice, none is left out, and none
/// is counted for the other side.
pub proof fn lemma_counts_add_up(sent: Transfer, events: Seq<TunnelEvent>)
    requires
        forall|i: int| 0 <= i < events.len() ==> events[i] is ClientSent || events[i] is ServerSent,
    ensures
        state_after(TunnelState::Relaying(sent), events) == TunnelState::Relaying(
            Transfer {
                from_client: capped(sent.from_client + client_bytes(events)),
                from_server: capped(sent.from_server + server_bytes(events)),
            },
        ),
    decreases events.len(),
{
    if events.len() > 0 {
        let then = transition(TunnelState::Relaying(sent), events.first()).0;
        lemma_counts_add_up(then->Relaying_0, events.drop_first());
    }
}

/// A transfer with the two sides exchanged.
pub open spec fn mirrored(sent: Transfer) -> Transfer {
    Transfer { from_client: sent.from_server, from_server: sent.from_client }
}

/// A state with the two sides exchanged.
pub open spec fn mirrored_state(state: TunnelState) -> TunnelState {
    match state {
        TunnelState::Relaying(sent) => TunnelState::Relaying(mirrored(sent)),
        _ => state,
    }
}

/// An event with the two sides exchanged.
pub open spec fn mirrored_event(event: TunnelEvent) -> TunnelEvent {
    match event {
        TunnelEvent::ClientSent(bytes) => TunnelEvent::ServerSent(bytes),
        TunnelEvent::ServerSent(bytes) => TunnelEvent::ClientSent(bytes),
        _ => event,
    }
}

/// An action with the two sides exchanged.
pub open spec fn mirrored_action(action: TunnelAction) -> TunnelAction {
    match action {
        TunnelAction::Finish(sent) => TunnelAction::Finish(mirrored(sent)),
        TunnelAction::Fail(sent) => TunnelAction::Fail(mirrored(sent)),
        _ => action,
    }
}

/// The two directions are treated alike: with client and target exchanged,
/// a tunnel takes the same steps and counts the same bytes, exchanged.
pub proof fn lemma_directions_are_alike(state: TunnelState, event: TunnelEvent)
    ensures
        transition(mirrored_state(state), mirrored_event(event)) == (
            mirrored_state(transition(state, event).0),
            mirrored_action(transition(state, event).1),
        ),
{
}

} // verus!
