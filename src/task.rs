//! Tasks: one pending computation each, driven by the caller's polling loop.
use vstd::prelude::*;
use crate::client::{
    connection_for, handshake_protocol, hyper_clientconn, selected_protocol, Dispatch, Http1Sender, Protocol, Tx,
};
use crate::error::hyper_code;
use crate::exec::{ExecSlot, Executors, driver_spawned, weak_dropped};
use crate::http_types::{hyper_io, hyper_response};
use crate::options::hyper_clientconn_options;

verus! {

/// The kind of value a task yields.
#[derive(Debug, Clone, Copy, PartialEq, Eq, Structural)]
pub enum hyper_task_return_type {
    /// The value is gone or there is none.
    HYPER_TASK_EMPTY,
    /// The value is an error code.
    HYPER_TASK_ERROR,
    /// The value is a client connection handle.
    HYPER_TASK_CLIENTCONN,
    /// The value is a response.
    HYPER_TASK_RESPONSE,
}

/// The work a pending task waits on.
pub enum TaskWork {
    /// A handshake on a transport, configured by the consumed options.
    Handshake { options: hyper_clientconn_options, io: hyper_io },
    /// A request handed to a connection's sender.
    Send { dispatch: Dispatch },
}

/// What a task yields once it is ready.
pub enum TaskValue {
    ClientConn(hyper_clientconn),
    Response(hyper_response),
    Error(hyper_code),
}

/// A task moves from pending to ready, and its value is then taken once.
pub enum TaskState {
    Pending(TaskWork),
    Ready(TaskValue),
    Consumed,
}

/// An opaque unit of work with its eventual value.
pub struct hyper_task {
    pub state: TaskState,
}

/// What the protocol engine reports of a handshake when it is polled.
#[derive(Debug, Clone, Copy, PartialEq, Eq, Structural)]
pub enum HandshakeEvent {
    /// Not done yet.
    Pending,
    /// The transport is open and the peer agreed on this protocol.
    Established(Protocol),
    /// The transport failed, or the negotiation did.
    Failed,
}

/// What the protocol engine reports of a send when it is polled.
pub enum SendEvent {
    Pending,
    Responded(hyper_response),
    Failed,
}

/// The value a handshake with options `o` resolves with on event `e`, where
/// the event is not `Pending`: the connection, if the peer agreed on the
/// protocol the options ask for, else the handshake's failure.
pub open spec fn handshake_value(o: hyper_clientconn_options, e: HandshakeEvent, t: Seq<ExecSlot>) -> TaskValue {
    if e == HandshakeEvent::Established(selected_protocol(o)) {
        TaskValue::ClientConn(connection_for(o, t))
    } else {
        TaskValue::Error(hyper_code::HYPERE_HANDSHAKE_FAILED)
    }
}

/// The executor table after a handshake with options `o` completes on event
/// `e`: on success the connection's driver is spawned where the executor is
/// still alive; either way the options, and their weak reference, are gone.
pub open spec fn handshake_table(o: hyper_clientconn_options, e: HandshakeEvent, t: Seq<ExecSlot>) -> Seq<ExecSlot> {
    if e == HandshakeEvent::Established(selected_protocol(o)) {
        weak_dropped(driver_spawned(t, o.executor), o.executor)
    } else {
        weak_dropped(t, o.executor)
    }
}

/// The state of a task in state `s` after it is polled with send event `e`:
/// a pending send resolves on a response or a failure; any other state stays.
pub open spec fn send_step(s: TaskState, e: SendEvent) -> TaskState {
    match s {
        TaskState::Pending(TaskWork::Send { .. }) => match e {
            SendEvent::Pending => s,
            SendEvent::Responded(r) => TaskState::Ready(TaskValue::Response(r)),
            SendEvent::Failed => TaskState::Ready(TaskValue::Error(hyper_code::HYPERE_SEND_FAILED)),
        },
        _ => s,
    }
}

/// The kind of value a task in state `s` yields.
pub open spec fn task_type_of(s: TaskState) -> hyper_task_return_type {
    match s {
        TaskState::Pending(TaskWork::Handshake { .. }) => hyper_task_return_type::HYPER_TASK_CLIENTCONN,
        TaskState::Pending(TaskWork::Send { .. }) => hyper_task_return_type::HYPER_TASK_RESPONSE,
        TaskState::Ready(TaskValue::ClientConn(_)) => hyper_task_return_type::HYPER_TASK_CLIENTCONN,
        TaskState::Ready(TaskValue::Response(_)) => hyper_task_return_type::HYPER_TASK_RESPONSE,
        TaskState::Ready(TaskValue::Error(_)) => hyper_task_return_type::HYPER_TASK_ERROR,
        TaskState::Consumed => hyper_task_return_type::HYPER_TASK_EMPTY,
    }
}

/// The executor table after a task in state `s` is dropped: a pending
/// handshake gives up its options' weak reference and spawns nothing.
pub open spec fn task_dropped(s: TaskState, t: Seq<ExecSlot>) -> Seq<ExecSlot> {
    match s {
        TaskState::Pending(TaskWork::Handshake { options, .. }) => weak_dropped(t, options.executor),
        _ => t,
    }
}

/// The task's executor references fit the table: a pending handshake's
/// options refer to an executor of it, which has room for one more driver.
pub open spec fn task_fits(s: TaskState, t: Seq<ExecSlot>) -> bool {
    match s {
        TaskState::Pending(TaskWork::Handshake { options, .. }) => {
            &&& options.executor.valid_in(t)
            &&& options.executor.slot matches Some(i) ==> t[i as int].drivers < u64::MAX
        },
        _ => true,
    }
}

impl hyper_task {
    /// The kind of value the task yields; it can be read while pending.
    pub fn hyper_task_type(&self) -> (r: hyper_task_return_type)
        ensures
            r == task_type_of(self.state),
    {
        match &self.state {
            TaskState::Pending(TaskWork::Handshake { .. }) => hyper_task_return_type::HYPER_TASK_CLIENTCONN,
            TaskState::Pending(TaskWork::Send { .. }) => hyper_task_return_type::HYPER_TASK_RESPONSE,
            TaskState::Ready(TaskValue::ClientConn(_)) => hyper_task_return_type::HYPER_TASK_CLIENTCONN,
            TaskState::Ready(TaskValue::Response(_)) => hyper_task_return_type::HYPER_TASK_RESPONSE,
            TaskState::Ready(TaskValue::Error(_)) => hyper_task_return_type::HYPER_TASK_ERROR,
            TaskState::Consumed => hyper_task_return_type::HYPER_TASK_EMPTY,
        }
    }

    /// Whether the task's value is ready to be taken.
    pub fn is_ready(&self) -> (r: bool)
        ensures
            r == self.state is Ready,
    {
        match &self.state {
            TaskState::Ready(_) => true,
            _ => false,
        }
    }

    /// The protocol a pending handshake task asks the engine to negotiate.
    pub fn handshake_protocol(&self) -> (p: Option<Protocol>)
        ensures
            match self.state {
                TaskState::Pending(TaskWork::Handshake { options, .. }) => p == Some(selected_protocol(options)),
                _ => p is None,
            },
    {
        match &self.state {
            TaskState::Pending(TaskWork::Handshake { options, .. }) => Some(handshake_protocol(options)),
            _ => None,
        }
    }

    /// Polls a handshake task with what the engine reported.
    ///
    /// A pending report, or a task that is not a pending handshake, changes
    /// nothing. Any other report resolves the task and returns `true`.
    pub fn poll_handshake(&mut self, event: HandshakeEvent, execs: &mut Executors) -> (ready: bool)
        requires
            task_fits(old(self).state, old(execs)@),
        ensures
            match old(self).state {
                TaskState::Pending(TaskWork::Handshake { options, .. }) => if event == HandshakeEvent::Pending {
                    !ready && final(self).state == old(self).state && final(execs)@ == old(execs)@
                } else {
                    &&& ready
                    &&& final(self).state == TaskState::Ready(handshake_value(options, event, old(execs)@))
                    &&& final(execs)@ == handshake_table(options, event, old(execs)@)
                },
                _ => ready == old(self).state is Ready && final(self).state == old(self).state
                    && final(execs)@ == old(execs)@,
            },
    {
        let options = match &self.state {
            TaskState::Pending(TaskWork::Handshake { options, .. }) => *options,
            TaskState::Ready(_) => return true,
            _ => return false,
        };
        let agreed = match event {
            HandshakeEvent::Pending => return false,
            HandshakeEvent::Established(p) => p == handshake_protocol(&options),
            HandshakeEvent::Failed => false,
        };
        if agreed {
            let running = execs.upgrade(&options.executor);
            execs.spawn_driver(&options.executor);
            let tx = match handshake_protocol(&options) {
                Protocol::Http2 => Tx::Http2,
                Protocol::Http1 => Tx::Http1(Http1Sender {
                    allow_obsolete_multiline_headers: options.http1_allow_obsolete_multiline_headers_in_responses,
                    preserve_header_case: options.http1_preserve_header_case,
                    preserve_header_order: options.http1_preserve_header_order,
                }),
            };
            let conn = hyper_clientconn { tx, driver: if running { options.executor.slot } else { None } };
            self.state = TaskState::Ready(TaskValue::ClientConn(conn));
        } else {
            self.state = TaskState::Ready(TaskValue::Error(hyper_code::HYPERE_HANDSHAKE_FAILED));
        }
        execs.drop_weak(options.executor);
        true
    }

    /// Polls a send task with what the engine reported.
    ///
    /// A pending report, or a task that is not a pending send, changes
    /// nothing. A response resolves the task with it; a failure resolves it
    /// with the send's failure.
    pub fn poll_send(&mut self, event: SendEvent) -> (ready: bool)
        ensures
            final(self).state == send_step(old(self).state, event),
            ready == final(self).state is Ready,
    {
        match &self.state {
            TaskState::Pending(TaskWork::Send { .. }) => {},
            TaskState::Ready(_) => return true,
            _ => return false,
        }
        match event {
            SendEvent::Pending => false,
            SendEvent::Responded(r) => {
                self.state = TaskState::Ready(TaskValue::Response(r));
                true
            },
            SendEvent::Failed => {
                self.state = TaskState::Ready(TaskValue::Error(hyper_code::HYPERE_SEND_FAILED));
                true
            },
        }
    }

    /// Takes the value of a ready task, which is then consumed. A task that
    /// is not ready, or whose value was taken, gives nothing and is left as
    /// it is.
    pub fn hyper_task_value(&mut self) -> (v: Option<TaskValue>)
        ensures
            match old(self).state {
                TaskState::Ready(x) => v == Some(x) && final(self).state == TaskState::Consumed,
                _ => v is None && final(self).state == old(self).state,
            },
    {
        if let TaskState::Ready(_) = &self.state {
            let mut s = TaskState::Consumed;
            std::mem::swap(&mut self.state, &mut s);
            match s {
                TaskState::Ready(x) => Some(x),
                _ => None,
            }
        } else {
            None
        }
    }
}

/// Frees a task. A pending computation is abandoned: a pending handshake
/// frees its options and spawns no driver.
pub fn hyper_task_free(task: hyper_task, execs: &mut Executors)
    requires
        task.state matches TaskState::Pending(TaskWork::Handshake { options, .. }) ==> options.executor.valid_in(
            old(execs)@,
        ),
    ensures
        final(execs)@ == task_dropped(task.state, old(execs)@),
{
    if let TaskState::Pending(TaskWork::Handshake { options, .. }) = task.state {
        execs.drop_weak(options.executor);
    }
}

} // verus!
