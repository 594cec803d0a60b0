//! Laws that relate the operations of the connection lifecycle.
use vstd::prelude::*;
use crate::client::{
    connection_for, driver_alive, protocol_of, selected_protocol, send_started,
    hyper_clientconn, Dispatch, Protocol,
};
use crate::error::hyper_code;
use crate::exec::{ExecSlot, weak_dropped};
use crate::http_types::{hyper_io, hyper_request, hyper_response};
use crate::options::{executor_set, hyper_clientconn_options, HTTP2_SUPPORTED};
use crate::task::{
    handshake_table, handshake_value, send_step, task_dropped, HandshakeEvent, SendEvent, TaskState,
    TaskValue, TaskWork,
};

verus! {

/// A handshake that the engine finishes, by success or by failure, resolves
/// with a connection whose protocol is the one the options ask for, or with
/// the handshake's failure; it yields a connection exactly when the peer
/// agreed on that protocol.
pub proof fn lemma_handshake_resolves(o: hyper_clientconn_options, e: HandshakeEvent, t: Seq<ExecSlot>)
    requires
        e != HandshakeEvent::Pending,
    ensures
        match handshake_value(o, e, t) {
            TaskValue::ClientConn(c) => protocol_of(c) == selected_protocol(o),
            TaskValue::Error(code) => code == hyper_code::HYPERE_HANDSHAKE_FAILED,
            TaskValue::Response(_) => false,
        },
        handshake_value(o, e, t) is ClientConn <==> e == HandshakeEvent::Established(selected_protocol(o)),
{
}

/// Options that ask for protocol-2, on a transport whose peer speaks only
/// protocol-1, resolve the handshake with its failure and spawn no driver.
pub proof fn lemma_protocol2_on_protocol1_peer_fails(o: hyper_clientconn_options, t: Seq<ExecSlot>)
    requires
        o.http2,
        HTTP2_SUPPORTED,
        o.executor.valid_in(t),
    ensures
        handshake_value(o, HandshakeEvent::Established(Protocol::Http1), t)
            == TaskValue::Error(hyper_code::HYPERE_HANDSHAKE_FAILED),
        handshake_table(o, HandshakeEvent::Established(Protocol::Http1), t) == weak_dropped(t, o.executor),
{
}

/// Pointing options at an executor and then freeing the options leaves
/// every executor's owning references and drivers as they were; for options
/// that referred to no executor before, the whole table is as it was.
pub proof fn lemma_options_release_keeps_executor(
    o: hyper_clientconn_options,
    t: Seq<ExecSlot>,
    id: usize,
    o2: hyper_clientconn_options,
    t2: Seq<ExecSlot>,
)
    requires
        o.executor.valid_in(t),
        id < t.len(),
        t[id as int].weak < u64::MAX,
        executor_set(o, t, id, o2, t2),
    ensures
        weak_dropped(t2, o2.executor).len() == t.len(),
        forall|i: int|
            0 <= i < t.len() ==> #[trigger] weak_dropped(t2, o2.executor)[i].strong == t[i].strong
                && weak_dropped(t2, o2.executor)[i].drivers == t[i].drivers,
        o.executor.slot is None ==> weak_dropped(t2, o2.executor) == t,
{
    if o.executor.slot is None {
        assert(weak_dropped(t2, o2.executor) =~= t);
    }
}

/// Two requests sent one after the other on the same running connection
/// both reach its sender, and each resolves with the response the engine
/// reports for it.
pub proof fn lemma_two_sends_on_one_connection(
    c: hyper_clientconn,
    r1: hyper_request,
    r2: hyper_request,
    t: Seq<ExecSlot>,
    resp1: hyper_response,
    resp2: hyper_response,
)
    requires
        driver_alive(c, t),
    ensures
        send_started(c, r1, t) is Pending,
        send_started(c, r2, t) is Pending,
        send_step(send_started(c, r1, t), SendEvent::Responded(resp1))
            == TaskState::Ready(TaskValue::Response(resp1)),
        send_step(send_started(c, r2, t), SendEvent::Responded(resp2))
            == TaskState::Ready(TaskValue::Response(resp2)),
{
}

/// A request sent on a connection made from options that preserve header
/// case and order reaches the protocol-1 sender with both flags set and
/// with its header fields as the caller wrote them, finalized.
pub proof fn lemma_header_record_reaches_protocol1_sender(
    o: hyper_clientconn_options,
    t: Seq<ExecSlot>,
    r: hyper_request,
)
    requires
        o.http1_preserve_header_case,
        o.http1_preserve_header_order,
        !o.http2,
        o.executor.valid_in(t),
        o.executor.upgrades_in(t),
    ensures
        ({
            let c = connection_for(o, t);
            let t2 = handshake_table(o, HandshakeEvent::Established(Protocol::Http1), t);
            &&& handshake_value(o, HandshakeEvent::Established(Protocol::Http1), t) == TaskValue::ClientConn(c)
            &&& send_started(c, r, t2) matches TaskState::Pending(TaskWork::Send {
                dispatch: Dispatch::Http1(s, fr),
            })
            &&& s.preserve_header_case
            &&& s.preserve_header_order
            &&& fr.headers == r.headers
            &&& fr.finalized
        }),
{
}

/// Dropping a handshake task before it resolves leaves no driver behind:
/// every executor keeps its drivers and its owning references.
pub proof fn lemma_dropped_handshake_spawns_nothing(o: hyper_clientconn_options, io: hyper_io, t: Seq<ExecSlot>)
    requires
        o.executor.valid_in(t),
    ensures
        ({
            let t2 = task_dropped(TaskState::Pending(TaskWork::Handshake { options: o, io }), t);
            &&& t2.len() == t.len()
            &&& forall|i: int| 0 <= i < t.len() ==> #[trigger] t2[i].drivers == t[i].drivers
                && t2[i].strong == t[i].strong
        }),
{
}

} // verus!
