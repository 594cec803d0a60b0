//! The client connection handle: the handshake that makes it and the send
//! operation that uses it.
use vstd::prelude::*;
use crate::error::hyper_code;
use crate::exec::{ExecSlot, Executors, WeakExec, weak_dropped};
use crate::http_types::{hyper_io, hyper_request};
use crate::options::{hyper_clientconn_options, HTTP2_SUPPORTED};
use crate::task::{hyper_task, hyper_task_return_type, TaskState, TaskValue, TaskWork};

verus! {

/// The protocol versions a connection can speak.
#[derive(Debug, Clone, Copy, PartialEq, Eq, Structural)]
pub enum Protocol {
    Http1,
    Http2,
}

/// The protocol-1 request sender, configured from the options at handshake.
#[derive(Debug, Clone, Copy, PartialEq, Eq, Structural)]
pub struct Http1Sender {
    pub allow_obsolete_multiline_headers: bool,
    pub preserve_header_case: bool,
    pub preserve_header_order: bool,
}

/// The sender of whichever protocol was negotiated; the variant is fixed
/// when the connection is made.
#[derive(Debug, Clone, Copy, PartialEq, Eq, Structural)]
pub enum Tx {
    Http1(Http1Sender),
    Http2,
}

/// An HTTP client connection handle.
///
/// These are used to send a request on a single connection. It's possible to
/// send multiple requests on a single connection, such as when protocol-1
/// keep-alive or protocol-2 is used.
#[derive(Debug, Clone, Copy, PartialEq, Eq, Structural)]
pub struct hyper_clientconn {
    pub tx: Tx,
    /// The executor that runs this connection's background driver, if one
    /// was spawned.
    pub driver: Option<usize>,
}

/// A request on its way to the sender of the negotiated protocol.
pub enum Dispatch {
    Http1(Http1Sender, hyper_request),
    Http2(hyper_request),
}

/// The protocol that options `o` ask for, as far as this library supports it.
pub open spec fn selected_protocol(o: hyper_clientconn_options) -> Protocol {
    if o.http2 && HTTP2_SUPPORTED {
        Protocol::Http2
    } else {
        Protocol::Http1
    }
}

/// The connection that a handshake with options `o` yields, in table `t` as
/// it was when the handshake completed.
pub open spec fn connection_for(o: hyper_clientconn_options, t: Seq<ExecSlot>) -> hyper_clientconn {
    hyper_clientconn {
        tx: match selected_protocol(o) {
            Protocol::Http2 => Tx::Http2,
            Protocol::Http1 => Tx::Http1(Http1Sender {
                allow_obsolete_multiline_headers: o.http1_allow_obsolete_multiline_headers_in_responses,
                preserve_header_case: o.http1_preserve_header_case,
                preserve_header_order: o.http1_preserve_header_order,
            }),
        },
        driver: if o.executor.upgrades_in(t) {
            o.executor.slot
        } else {
            None
        },
    }
}

/// The protocol of a connection, read from its sender's variant.
pub open spec fn protocol_of(c: hyper_clientconn) -> Protocol {
    match c.tx {
        Tx::Http1(_) => Protocol::Http1,
        Tx::Http2 => Protocol::Http2,
    }
}

/// Request `r` once finalized.
pub open spec fn finalized(r: hyper_request) -> hyper_request {
    hyper_request { finalized: true, ..r }
}

/// Whether the background driver of connection `c` is still being run.
pub open spec fn driver_alive(c: hyper_clientconn, t: Seq<ExecSlot>) -> bool {
    c.driver matches Some(i) && i < t.len() && t[i as int].alive()
}

/// The state of the task that sends request `r` on connection `c`: handed
/// to the connection's sender, or failed at once where nothing runs the
/// connection any more.
pub open spec fn send_started(c: hyper_clientconn, r: hyper_request, t: Seq<ExecSlot>) -> TaskState {
    if driver_alive(c, t) {
        TaskState::Pending(TaskWork::Send {
            dispatch: match c.tx {
                Tx::Http1(s) => Dispatch::Http1(s, finalized(r)),
                Tx::Http2 => Dispatch::Http2(finalized(r)),
            },
        })
    } else {
        TaskState::Ready(TaskValue::Error(hyper_code::HYPERE_SEND_FAILED))
    }
}

impl hyper_clientconn {
    /// The kind of value a task yields when it yields a connection.
    pub fn as_task_type(&self) -> (r: hyper_task_return_type)
        ensures
            r == hyper_task_return_type::HYPER_TASK_CLIENTCONN,
    {
        hyper_task_return_type::HYPER_TASK_CLIENTCONN
    }

    /// The protocol this connection speaks.
    pub fn protocol(&self) -> (p: Protocol)
        ensures
            p == protocol_of(*self),
    {
        match self.tx {
            Tx::Http1(_) => Protocol::Http1,
            Tx::Http2 => Protocol::Http2,
        }
    }
}

/// The protocol that options `o` ask for.
pub fn handshake_protocol(o: &hyper_clientconn_options) -> (p: Protocol)
    ensures
        p == selected_protocol(*o),
{
    if o.http2 && HTTP2_SUPPORTED {
        Protocol::Http2
    } else {
        Protocol::Http1
    }
}

/// Starts a client connection handshake on transport `io` with `options`.
///
/// Both inputs are consumed. The task that is returned must be polled until
/// the handshake completes, at which point it yields the connection. An
/// absent input gives no task; where the options were present they are
/// freed, which gives up their executor reference.
pub fn hyper_clientconn_handshake(
    io: Option<hyper_io>,
    options: Option<hyper_clientconn_options>,
    execs: &mut Executors,
) -> (task: Option<hyper_task>)
    requires
        options matches Some(o) ==> o.executor.valid_in(old(execs)@),
    ensures
        match (io, options) {
            (Some(i), Some(o)) => task == Some(hyper_task {
                state: TaskState::Pending(TaskWork::Handshake { options: o, io: i }),
            }) && final(execs)@ == old(execs)@,
            (None, Some(o)) => task is None && final(execs)@ == weak_dropped(old(execs)@, o.executor),
            (_, None) => task is None && final(execs)@ == old(execs)@,
        },
{
    match options {
        None => None,
        Some(o) => match io {
            None => {
                execs.drop_weak(o.executor);
                None
            },
            Some(i) => Some(hyper_task { state: TaskState::Pending(TaskWork::Handshake { options: o, io: i }) }),
        },
    }
}

/// Sends a request on the client connection.
///
/// The connection is borrowed and stays usable for further sends; the
/// request is consumed and finalized before it is handed to the sender of
/// the connection's protocol. The task that is returned must be polled until
/// it yields the response. Where the executor that ran the connection is
/// gone, the task fails at once instead of waiting on a connection that
/// nothing drives. An absent input gives no task.
pub fn hyper_clientconn_send(
    conn: Option<&hyper_clientconn>,
    req: Option<hyper_request>,
    execs: &Executors,
) -> (task: Option<hyper_task>)
    ensures
        match (conn, req) {
            (Some(c), Some(r)) => task matches Some(k) && k.state == send_started(*c, r, execs@),
            _ => task is None,
        },
{
    let mut req = match req {
        Some(r) => r,
        None => return None,
    };
    let c = match conn {
        Some(c) => c,
        None => return None,
    };
    // Update request with the caller's header case and order.
    req.finalize_request();
    let running = match c.driver {
        Some(i) => execs.upgrade(&WeakExec { slot: Some(i) }),
        None => false,
    };
    if !running {
        return Some(hyper_task { state: TaskState::Ready(TaskValue::Error(hyper_code::HYPERE_SEND_FAILED)) });
    }
    let dispatch = match c.tx {
        Tx::Http1(s) => Dispatch::Http1(s, req),
        Tx::Http2 => Dispatch::Http2(req),
    };
    Some(hyper_task { state: TaskState::Pending(TaskWork::Send { dispatch }) })
}

/// Frees a client connection handle. Sends already started keep their own
/// hold on the sender.
pub fn hyper_clientconn_free(conn: Option<hyper_clientconn>) {
    let _released = conn;
}

} // verus!
