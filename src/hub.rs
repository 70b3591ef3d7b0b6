//! The hub as a whole, and the laws its connections obey.
//!
//! A `HubModel` is the listener together with every connection. One event on
//! one connection moves that connection; a mutation it publishes is then
//! delivered to the listener and to every connection, as the broadcast
//! channel does for subscribers that keep up.

use crate::connection::{next, ConnectionAction, ConnectionEvent, HubConnection};
use crate::listener::{listener_next, Listener, ListenerAction, ListenerEvent};
use crate::protocol::{
    person_is_ok, ClientHelloMessage, DisplayHelloMessage, DisplayMessage, DisplayStateMutation,
    PersonIsUpdateHelloMessage,
};
use vstd::prelude::*;

verus! {

/// The listener and every connection of a hub.
pub struct HubModel {
    pub listener: Listener,
    pub conns: Seq<HubConnection>,
}

/// Every connection after receiving mutation `m` on its subscription.
pub open spec fn deliver(conns: Seq<HubConnection>, m: DisplayStateMutation) -> Seq<HubConnection> {
    conns.map_values(|c: HubConnection| next(c, ConnectionEvent::Update(m)).0)
}

/// The hub after event `e` on connection `i`.
pub open spec fn hub_next(h: HubModel, i: int, e: ConnectionEvent) -> HubModel {
    let (ci, a) = next(h.conns[i], e);
    let conns = h.conns.update(i, ci);
    match a {
        ConnectionAction::Publish(m) => HubModel {
            listener: listener_next(h.listener, ListenerEvent::Update(m)).0,
            conns: deliver(conns, m),
        },
        _ => HubModel { listener: h.listener, conns },
    }
}

/// A connection's final state and its actions, after the events `es` in order.
pub open spec fn run(c: HubConnection, es: Seq<ConnectionEvent>) -> (HubConnection, Seq<ConnectionAction>)
    decreases es.len(),
{
    if es.len() == 0 {
        (c, Seq::<ConnectionAction>::empty())
    } else {
        let (c1, a) = next(c, es[0]);
        let (cn, rest) = run(c1, es.drop_first());
        (cn, seq![a] + rest)
    }
}

/// How many of the actions publish a mutation.
pub open spec fn publish_count(acts: Seq<ConnectionAction>) -> nat
    decreases acts.len(),
{
    if acts.len() == 0 {
        0
    } else {
        (if acts[0] is Publish { 1nat } else { 0nat }) + publish_count(acts.drop_first())
    }
}

/// Whether one of the actions writes to the client.
pub open spec fn writes_any(acts: Seq<ConnectionAction>) -> bool {
    exists|k: int| 0 <= k < acts.len() && (acts[k] is Send || acts[k] is SubscribeAndSend)
}

/// The events that end a connection that is waiting for its hello.
pub open spec fn fails_hello(e: ConnectionEvent) -> bool {
    match e {
        ConnectionEvent::DecodeFailed => true,
        ConnectionEvent::ReadFailed => true,
        ConnectionEvent::EndOfStream => true,
        ConnectionEvent::Hello(ClientHelloMessage::PersonIsUpdate(u)) => !person_is_ok(u.person_is@),
        _ => false,
    }
}

/// The snapshot that an update sets.
pub open spec fn status_of(u: PersonIsUpdateHelloMessage) -> DisplayMessage {
    DisplayMessage { person_is: u.person_is, person_is_timestamp: u.timestamp }
}

/// A connection that is publishing or closed neither publishes nor writes
/// again, whatever happens.
pub proof fn finished_stays_quiet(c: HubConnection, es: Seq<ConnectionEvent>)
    requires
        c is Publishing || c is Closed,
    ensures
        publish_count(run(c, es).1) == 0,
        !writes_any(run(c, es).1),
        run(c, es).0 is Publishing || run(c, es).0 is Closed,
        c is Closed ==> run(c, es).0 == c,
    decreases es.len(),
{
    if es.len() > 0 {
        let c1 = next(c, es[0]).0;
        finished_stays_quiet(c1, es.drop_first());
        let acts = run(c, es).1;
        assert forall|k: int| 0 <= k < acts.len() implies !(acts[k] is Send || acts[k] is SubscribeAndSend) by {
            if k > 0 {
                assert(acts[k] == run(c1, es.drop_first()).1[k - 1]);
            }
        }
        assert(acts.drop_first() == run(c1, es.drop_first()).1);
    }
}

/// Hello gating: until its hello, a connection publishes only for a valid
/// update hello, and one that fails its hello (undecodable frame, read
/// error, end of stream, status too long) closes with an error and never
/// publishes anything afterwards.
pub proof fn hello_gating(seed: DisplayMessage, e: ConnectionEvent, later: Seq<ConnectionEvent>)
    ensures
        next(HubConnection::AwaitingHello { seed }, e).1 is Publish ==> (e matches ConnectionEvent::Hello(
            ClientHelloMessage::PersonIsUpdate(u),
        ) && person_is_ok(u.person_is@)),
        fails_hello(e) ==> (next(HubConnection::AwaitingHello { seed }, e).0 matches HubConnection::Closed {
            outcome,
        } && outcome is Err),
        fails_hello(e) ==> next(HubConnection::AwaitingHello { seed }, e).1 is Close,
        fails_hello(e) ==> publish_count(
            run(HubConnection::AwaitingHello { seed }, seq![e] + later).1,
        ) == 0,
{
    if fails_hello(e) {
        let c0 = HubConnection::AwaitingHello { seed };
        let es = seq![e] + later;
        let c1 = next(c0, e).0;
        assert(es[0] == e);
        assert(es.drop_first() == later);
        finished_stays_quiet(c1, later);
        assert(run(c0, es).1.drop_first() == run(c1, later).1);
    }
}

/// One-shot updater: a valid update hello publishes exactly its mutation,
/// once; the connection then writes nothing, and closes as soon as the
/// publish is reported.
pub proof fn updater_one_shot(
    seed: DisplayMessage,
    u: PersonIsUpdateHelloMessage,
    later: Seq<ConnectionEvent>,
)
    requires
        person_is_ok(u.person_is@),
    ensures
        run(
            HubConnection::AwaitingHello { seed },
            seq![ConnectionEvent::Hello(ClientHelloMessage::PersonIsUpdate(u))] + later,
        ).1[0] == ConnectionAction::Publish(DisplayStateMutation::SetPersonIs(u)),
        publish_count(
            run(
                HubConnection::AwaitingHello { seed },
                seq![ConnectionEvent::Hello(ClientHelloMessage::PersonIsUpdate(u))] + later,
            ).1,
        ) == 1,
        !writes_any(
            run(
                HubConnection::AwaitingHello { seed },
                seq![ConnectionEvent::Hello(ClientHelloMessage::PersonIsUpdate(u))] + later,
            ).1,
        ),
        forall|d: bool| #[trigger] next(HubConnection::Publishing, ConnectionEvent::Published(d)).0 is Closed,
{
    let c0 = HubConnection::AwaitingHello { seed };
    let e = ConnectionEvent::Hello(ClientHelloMessage::PersonIsUpdate(u));
    let es = seq![e] + later;
    assert(es[0] == e);
    assert(es.drop_first() == later);
    finished_stays_quiet(HubConnection::Publishing, later);
    let acts = run(c0, es).1;
    let tail = run(HubConnection::Publishing, later).1;
    assert(acts.drop_first() == tail);
    assert forall|k: int| 0 <= k < acts.len() implies !(acts[k] is Send || acts[k] is SubscribeAndSend) by {
        if k > 0 {
            assert(acts[k] == tail[k - 1]);
        }
    }
}

/// A displayer's first frame is the listener's status at the moment its
/// connection was accepted, sent as soon as its hello arrives.
pub proof fn displayer_first_snapshot(l: Listener, hello: DisplayHelloMessage)
    ensures
        listener_next(l, ListenerEvent::Accepted).0 == l,
        listener_next(l, ListenerEvent::Accepted).1 matches ListenerAction::Spawn(c) && next(
            c,
            ConnectionEvent::Hello(ClientHelloMessage::Display(hello)),
        ) == (HubConnection::Streaming { replica: l.display_state }, ConnectionAction::SubscribeAndSend(
            l.display_state,
        )),
{
}

/// Propagation: when an updater's valid hello is handled, the listener and
/// every streaming displayer take its text and timestamp, and each such
/// displayer's next frame carries exactly them.
pub proof fn update_propagates(h: HubModel, i: int, u: PersonIsUpdateHelloMessage)
    requires
        0 <= i < h.conns.len(),
        h.conns[i] is AwaitingHello,
        person_is_ok(u.person_is@),
    ensures
        hub_next(h, i, ConnectionEvent::Hello(ClientHelloMessage::PersonIsUpdate(u))).listener.display_state
            == status_of(u),
        forall|j: int|
            0 <= j < h.conns.len() && j != i && h.conns[j] is Streaming ==> {
                &&& hub_next(h, i, ConnectionEvent::Hello(ClientHelloMessage::PersonIsUpdate(u))).conns[j]
                    == (HubConnection::Streaming { replica: status_of(u) })
                &&& next(h.conns[j], ConnectionEvent::Update(DisplayStateMutation::SetPersonIs(u))).1
                    == ConnectionAction::Send(status_of(u))
            },
{
    let e = ConnectionEvent::Hello(ClientHelloMessage::PersonIsUpdate(u));
    let h2 = hub_next(h, i, e);
    let conns = h.conns.update(i, HubConnection::Publishing);
    assert forall|j: int|
        0 <= j < h.conns.len() && j != i && h.conns[j] is Streaming implies h2.conns[j]
        == (HubConnection::Streaming { replica: status_of(u) }) by {
        assert(conns[j] == h.conns[j]);
    }
}

/// Isolation: a connection that fails changes neither the listener's status
/// nor any other connection.
pub proof fn failure_isolated(h: HubModel, i: int, e: ConnectionEvent)
    requires
        0 <= i < h.conns.len(),
        next(h.conns[i], e).0 matches HubConnection::Closed { outcome } && outcome is Err,
    ensures
        hub_next(h, i, e).listener == h.listener,
        hub_next(h, i, e).conns.len() == h.conns.len(),
        forall|j: int| 0 <= j < h.conns.len() && j != i ==> hub_next(h, i, e).conns[j] == h.conns[j],
{
}

/// Heartbeat: with no mutation arriving, each of `n` timer ticks sends the
/// displayer the same, unchanged snapshot.
pub proof fn heartbeat_resends(replica: DisplayMessage, n: nat)
    ensures
        run(
            HubConnection::Streaming { replica },
            Seq::new(n, |k: int| ConnectionEvent::Tick),
        ) == (HubConnection::Streaming { replica }, Seq::new(n, |k: int| ConnectionAction::Send(replica))),
    decreases n,
{
    let es = Seq::new(n, |k: int| ConnectionEvent::Tick);
    if n > 0 {
        heartbeat_resends(replica, (n - 1) as nat);
        assert(es.drop_first() == Seq::new((n - 1) as nat, |k: int| ConnectionEvent::Tick));
        assert(seq![ConnectionAction::Send(replica)] + Seq::new((n - 1) as nat, |k: int| ConnectionAction::Send(replica))
            == Seq::new(n, |k: int| ConnectionAction::Send(replica)));
    } else {
        assert(Seq::new(n, |k: int| ConnectionAction::Send(replica)) == Seq::<ConnectionAction>::empty());
    }
}

} // verus!
