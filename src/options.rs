//! The options builder that configures a client connection.
use vstd::prelude::*;
use libc::c_int;
use crate::error::hyper_code;
use crate::exec::{ExecSlot, Executors, WeakExec, downgraded, downgraded_ref, weak_dropped};

verus! {

/// Whether protocol-2 support is built into this library.
pub const HTTP2_SUPPORTED: bool = true;

/// An options builder to configure an HTTP client connection.
///
/// It is mutable until a handshake consumes it; it refers to its executor
/// only weakly, so it neither keeps the executor alive nor is kept alive by
/// it.
#[derive(Debug, Clone, Copy, PartialEq, Eq, Structural)]
pub struct hyper_clientconn_options {
    pub http1_allow_obsolete_multiline_headers_in_responses: bool,
    pub http1_preserve_header_case: bool,
    pub http1_preserve_header_order: bool,
    pub http2: bool,
    /// A weak reference, to prevent cycles.
    pub executor: WeakExec,
}

/// Creates a new set of options: every flag off, protocol-1, no executor.
pub fn hyper_clientconn_options_new() -> (o: hyper_clientconn_options)
    ensures
        !o.http1_allow_obsolete_multiline_headers_in_responses,
        !o.http1_preserve_header_case,
        !o.http1_preserve_header_order,
        !o.http2,
        o.executor.slot is None,
{
    hyper_clientconn_options {
        http1_allow_obsolete_multiline_headers_in_responses: false,
        http1_preserve_header_case: false,
        http1_preserve_header_order: false,
        http2: false,
        executor: WeakExec::new(),
    }
}

/// The options in slot `opts` with one field changed by `f`; an empty slot,
/// the boundary's null handle, stays empty.
pub open spec fn updated(
    opts: Option<hyper_clientconn_options>,
    f: spec_fn(hyper_clientconn_options) -> hyper_clientconn_options,
) -> Option<hyper_clientconn_options> {
    match opts {
        Some(o) => Some(f(o)),
        None => None,
    }
}

/// Options `o2` and table `t2` are what pointing options `o` of table `t`
/// at executor `id` gives: a new weak reference to it, then the old one
/// given up.
pub open spec fn executor_set(
    o: hyper_clientconn_options,
    t: Seq<ExecSlot>,
    id: usize,
    o2: hyper_clientconn_options,
    t2: Seq<ExecSlot>,
) -> bool {
    &&& o2 == (hyper_clientconn_options { executor: downgraded_ref(t, id), ..o })
    &&& t2 == weak_dropped(downgraded(t, id), o.executor)
}

/// Sets whether header case is preserved: `0` allows lowercase
/// normalization (the default), anything else retains the original case.
pub fn hyper_clientconn_options_set_preserve_header_case(
    opts: &mut Option<hyper_clientconn_options>,
    enabled: c_int,
)
    ensures
        *final(opts) == updated(
            *old(opts),
            |o: hyper_clientconn_options|
                hyper_clientconn_options { http1_preserve_header_case: enabled != 0, ..o },
        ),
{
    if let Some(o) = opts {
        o.http1_preserve_header_case = enabled != 0;
    }
}

/// Sets whether header order is preserved: `0` allows reordering (the
/// default), anything else retains the original order.
pub fn hyper_clientconn_options_set_preserve_header_order(
    opts: &mut Option<hyper_clientconn_options>,
    enabled: c_int,
)
    ensures
        *final(opts) == updated(
            *old(opts),
            |o: hyper_clientconn_options|
                hyper_clientconn_options { http1_preserve_header_order: enabled != 0, ..o },
        ),
{
    if let Some(o) = opts {
        o.http1_preserve_header_order = enabled != 0;
    }
}

/// Sets whether protocol-1 connections accept obsolete line folding in
/// response header values: `0` disables, anything else enables.
pub fn hyper_clientconn_options_http1_allow_multiline_headers(
    opts: &mut Option<hyper_clientconn_options>,
    enabled: c_int,
) -> (code: hyper_code)
    ensures
        *final(opts) == updated(
            *old(opts),
            |o: hyper_clientconn_options|
                hyper_clientconn_options {
                    http1_allow_obsolete_multiline_headers_in_responses: enabled != 0,
                    ..o
                },
        ),
        code == if (*old(opts)) is Some { hyper_code::HYPERE_OK } else { hyper_code::HYPERE_INVALID_ARG },
{
    match opts {
        Some(o) => {
            o.http1_allow_obsolete_multiline_headers_in_responses = enabled != 0;
            hyper_code::HYPERE_OK
        },
        None => hyper_code::HYPERE_INVALID_ARG,
    }
}

/// Sets whether to use protocol-2, where the library is built with
/// `supported` as its protocol-2 support: `0` disables, anything else
/// enables. Without that support the options are left as they are.
pub fn hyper_clientconn_options_http2_with_support(
    opts: &mut Option<hyper_clientconn_options>,
    enabled: c_int,
    supported: bool,
) -> (code: hyper_code)
    ensures
        !supported ==> code == hyper_code::HYPERE_FEATURE_NOT_ENABLED && *final(opts) == *old(opts),
        supported && (*old(opts)) is None ==> code == hyper_code::HYPERE_INVALID_ARG && *final(opts) == *old(opts),
        supported && (*old(opts)) is Some ==> code == hyper_code::HYPERE_OK && *final(opts) == updated(
            *old(opts),
            |o: hyper_clientconn_options| hyper_clientconn_options { http2: enabled != 0, ..o },
        ),
{
    if !supported {
        return hyper_code::HYPERE_FEATURE_NOT_ENABLED;
    }
    match opts {
        Some(o) => {
            o.http2 = enabled != 0;
            hyper_code::HYPERE_OK
        },
        None => hyper_code::HYPERE_INVALID_ARG,
    }
}

/// Sets whether to use protocol-2, with this library's own protocol-2
/// support: `0` disables, anything else enables.
pub fn hyper_clientconn_options_http2(
    opts: &mut Option<hyper_clientconn_options>,
    enabled: c_int,
) -> (code: hyper_code)
    ensures
        !HTTP2_SUPPORTED ==> code == hyper_code::HYPERE_FEATURE_NOT_ENABLED && *final(opts) == *old(opts),
        HTTP2_SUPPORTED && (*old(opts)) is None ==> code == hyper_code::HYPERE_INVALID_ARG && *final(opts) == *old(opts),
        HTTP2_SUPPORTED && (*old(opts)) is Some ==> code == hyper_code::HYPERE_OK && *final(opts) == updated(
            *old(opts),
            |o: hyper_clientconn_options| hyper_clientconn_options { http2: enabled != 0, ..o },
        ),
{
    hyper_clientconn_options_http2_with_support(opts, enabled, HTTP2_SUPPORTED)
}

/// Sets the executor that background connection work is spawned onto.
///
/// Neither the options nor the executor's owning reference is consumed: the
/// options give up the weak reference they held and keep a weak reference
/// to executor `exec` instead. An absent options or executor handle changes
/// nothing.
pub fn hyper_clientconn_options_exec(
    opts: &mut Option<hyper_clientconn_options>,
    execs: &mut Executors,
    exec: Option<usize>,
)
    requires
        *old(opts) matches Some(o) ==> o.executor.valid_in(old(execs)@),
        exec matches Some(id) ==> id < old(execs)@.len() && old(execs)@[id as int].weak < u64::MAX,
    ensures
        (*old(opts)) is None || exec is None ==> *final(opts) == *old(opts) && final(execs)@ == old(execs)@,
        (*old(opts)) is Some && exec is Some ==> (*final(opts)) is Some && (executor_set(
            (*old(opts)).unwrap(),
            old(execs)@,
            exec.unwrap(),
            (*final(opts)).unwrap(),
            final(execs)@,
        )),
{
    if let Some(o) = opts {
        if let Some(id) = exec {
            let w = execs.downgrade(id);
            let previous = o.executor;
            o.executor = w;
            execs.drop_weak(previous);
        }
    }
}

/// Frees a set of options, giving up its weak executor reference.
pub fn hyper_clientconn_options_free(opts: Option<hyper_clientconn_options>, execs: &mut Executors)
    requires
        opts matches Some(o) ==> o.executor.valid_in(old(execs)@),
    ensures
        final(execs)@ == match opts {
            Some(o) => weak_dropped(old(execs)@, o.executor),
            None => old(execs)@,
        },
{
    if let Some(o) = opts {
        execs.drop_weak(o.executor);
    }
}

} // verus!
