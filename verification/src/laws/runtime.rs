//! Runtimes and their terminals hold what was set on them.
use std::sync::Arc;
use vstd::prelude::*;
use crate::host_exec::HostExecImpl;
use crate::ids::IdCounter;
use crate::pipes::{SimplePipeRx, SimplePipeTx};
use crate::runtime;
use crate::runtime::{
    Networking, Registry, Runtime, RuntimeError, SharedRuntime, Tty, TtyOptions, WasiTtyState,
};
use crate::tasks::scheduler::SharedState;
use crate::tasks::scheduler_message::SchedulerMessage;

verus! {

/// Whether optional texts say the same.
pub open spec fn same_text(a: Option<String>, b: Option<String>) -> bool {
    &&& a is Some == b is Some
    &&& a is Some ==> a->0@ == b->0@
}

/// Whether two ways to reach the network are the same.
pub open spec fn same_networking(a: Networking, b: Networking) -> bool {
    &&& a is Gateway == b is Gateway
    &&& a is Gateway ==> a->0@ == b->0@
}

/// Whether two registries are the same.
pub open spec fn same_registry(a: Option<Registry>, b: Option<Registry>) -> bool {
    &&& a is Some == b is Some
    &&& a is Some ==> a->0.url@ == b->0.url@ && same_text(a->0.token, b->0.token)
}

/// Whether a runtime has just been made: it has no thread pool, no network and
/// no registry.
pub open spec fn is_bare(r: Runtime) -> bool {
    r.task_manager is None && r.networking is Unsupported && r.source is None
}

/// Whether a registry is at a URL and has a token.
pub open spec fn registry_is(
    registry: Option<Registry>,
    url: Seq<char>,
    token: Option<&str>,
) -> bool {
    &&& registry is Some
    &&& registry->0.url@ == url
    &&& registry->0.token is Some == token is Some
    &&& token is Some ==> registry->0.token->0@ == token->0@
}

/// A runtime starts with nothing set on it. One that is copied has all that the
/// first one has, and one that is given a thread pool has all that but the pool.
pub proof fn law_runtimes_are_copied(
    fresh: Runtime,
    runtime: &Runtime,
    copied: Runtime,
    pool: u64,
    with_pool: Runtime,
    with_default: Runtime,
    task_manager: u64,
)
    requires
        call_ensures(Runtime::new, (), fresh),
        call_ensures(<Runtime as Clone>::clone, (runtime,), copied),
        call_ensures(Runtime::with_task_manager, (runtime, pool), with_pool),
        call_ensures(Runtime::with_default_pool, (runtime, pool), with_default),
        call_ensures(Runtime::task_manager, (&with_pool,), task_manager),
    ensures
        is_bare(fresh),
        copied.task_manager == runtime.task_manager,
        same_networking(copied.networking, runtime.networking),
        same_registry(copied.source, runtime.source),
        with_pool.task_manager == Some(pool),
        same_networking(with_pool.networking, runtime.networking),
        same_registry(with_pool.source, runtime.source),
        with_default.task_manager == Some(pool),
        same_networking(with_default.networking, runtime.networking),
        same_registry(with_default.source, runtime.source),
        task_manager == pool,
{
}

/// A registry whose URL is sound is the one that packages come from, with its
/// token; one whose URL is not sound changes nothing and gives the reason.
/// Setting the gateway changes nothing else.
pub proof fn law_registries_are_those_that_were_set(
    registering: &mut Runtime,
    url: String,
    token: Option<&str>,
    set: Result<(), RuntimeError>,
    refusing: &mut Runtime,
    reason: String,
    refused: Result<(), RuntimeError>,
    connecting: &mut Runtime,
    gateway: String,
    runtime: &Runtime,
    source: Option<&Registry>,
)
    requires
        call_ensures(Runtime::set_parsed_registry, (registering, Ok(url), token), set),
        call_ensures(Runtime::set_parsed_registry, (refusing, Err(reason), token), refused),
        call_ensures(Runtime::set_network_gateway, (connecting, gateway), ()),
        *runtime == *final(registering),
        call_ensures(Runtime::source, (runtime,), source),
    ensures
        set is Ok,
        registry_is(final(registering).source, url@, token),
        final(registering).task_manager == old(registering).task_manager,
        same_networking(final(registering).networking, old(registering).networking),
        source is Some && registry_is(Some(*source->0), url@, token),
        refused is Err && refused->Err_0.message@ == reason@,
        same_registry(final(refusing).source, old(refusing).source),
        final(refusing).task_manager == old(refusing).task_manager,
        same_networking(final(refusing).networking, old(refusing).networking),
        final(connecting).networking is Gateway && final(connecting).networking->0@ == gateway@,
        final(connecting).task_manager == old(connecting).task_manager,
        same_registry(final(connecting).source, old(connecting).source),
{
    assert(runtime@.source == Some(source->0@));
}

/// A registry is set to the normal form of its URL, and only to that. The global
/// runtime is the one that is alive; if none is, it is a new one with its registry
/// set and nothing else.
pub proof fn law_registries_are_set_from_their_urls(
    registering: &mut Runtime,
    url: &str,
    token: Option<&str>,
    set: Result<(), RuntimeError>,
    made: Result<Runtime, RuntimeError>,
    alive: Arc<Runtime>,
    kept: Result<Arc<Runtime>, RuntimeError>,
    global: Result<Arc<Runtime>, RuntimeError>,
)
    requires
        call_ensures(Runtime::set_registry, (registering, url, token), set),
        call_ensures(Runtime::with_defaults, (url,), made),
        call_ensures(Runtime::lazily_initialized, (Some(alive), url), kept),
        call_ensures(Runtime::lazily_initialized, (None, url), global),
    ensures
        final(registering).task_manager == old(registering).task_manager,
        same_networking(final(registering).networking, old(registering).networking),
        kept == Ok::<Arc<Runtime>, RuntimeError>(alive),
        match runtime::parsed_url(url@) {
            Ok(parsed) => {
                &&& set is Ok
                &&& registry_is(final(registering).source, parsed, token)
                &&& made is Ok
                &&& registry_is(made->Ok_0.source, parsed, None)
                &&& made->Ok_0.task_manager is None
                &&& made->Ok_0.networking is Unsupported
                &&& global is Ok
                &&& registry_is((*global->Ok_0).source, parsed, None)
                &&& (*global->Ok_0).task_manager is None
                &&& (*global->Ok_0).networking is Unsupported
            },
            Err(reason) => {
                &&& set is Err && set->Err_0.message@ == reason
                &&& same_registry(final(registering).source, old(registering).source)
                &&& made is Err && made->Err_0.message@ == reason
                &&& global is Err && global->Err_0.message@ == reason
            },
        },
{
}

/// Both ends of a pipe that a program creates and the message that registers it
/// have the same new id. The handler that executes programs is kept with the
/// scheduler, and what executes them is shared with the runtime's copies.
pub proof fn law_runtimes_create_pipes(
    runtime: &Runtime,
    pipe_ids: &mut IdCounter,
    worker_id: Option<u32>,
    created: (SimplePipeTx, SimplePipeRx, SchedulerMessage),
    shared: &mut SharedState,
    handler: u64,
    parts: &SharedRuntime,
    host_exec: &HostExecImpl,
)
    requires
        call_ensures(Runtime::create_pipe, (runtime, pipe_ids, worker_id), created),
        call_ensures(Runtime::set_host_exec_handler, (runtime, shared, handler), ()),
        call_ensures(Runtime::host_exec_impl, (runtime, parts), host_exec),
    ensures
        created.0.pipe_id == old(pipe_ids).next,
        created.1.pipe_id == old(pipe_ids).next,
        created.2 == (SchedulerMessage::PipeCreate {
            pipe_id: old(pipe_ids).next,
            worker_id: match worker_id {
                Some(worker_id) => worker_id,
                None => 0,
            },
        }),
        final(pipe_ids).next == (if old(pipe_ids).next == u64::MAX {
            0
        } else {
            old(pipe_ids).next + 1
        }),
        final(shared).host_exec_handler == Some(handler),
        final(shared).sessions@ == old(shared).sessions@,
        final(shared).pipes@ == old(shared).pipes@,
        *host_exec == parts.host_exec,
{
}

/// A terminal has the options that it was made with. It is connected as was last
/// said, and resetting it changes its modes but not its size.
pub proof fn law_terminals_have_their_options(
    options: TtyOptions,
    tty: Tty,
    parts: SharedRuntime,
    read: TtyOptions,
    connecting: &mut Tty,
    state: bool,
    resetting: &mut Tty,
)
    requires
        call_ensures(Tty::new, (options,), tty),
        call_ensures(SharedRuntime::new, (options,), parts),
        call_ensures(Tty::tty_options, (&tty,), read),
        call_ensures(Tty::set_connected_to_tty, (connecting, state), ()),
        call_ensures(Tty::reset, (resetting,), ()),
    ensures
        tty.cols == options.cols && tty.rows == options.rows,
        tty.echo == options.echo,
        tty.line_buffering == options.line_buffering,
        tty.line_feeds == options.line_feeds,
        !tty.connected,
        parts.tty.cols == options.cols && parts.tty.rows == options.rows,
        parts.tty.echo == options.echo,
        parts.tty.line_buffering == options.line_buffering,
        parts.tty.line_feeds == options.line_feeds,
        !parts.tty.connected,
        parts.host_exec.next_session_id.next == 0,
        read.cols == options.cols && read.rows == options.rows,
        read.echo == options.echo,
        read.line_buffering == options.line_buffering,
        read.line_feeds == options.line_feeds,
        final(connecting).connected == state,
        final(connecting).cols == old(connecting).cols,
        final(connecting).rows == old(connecting).rows,
        final(connecting).echo == old(connecting).echo,
        final(connecting).line_buffering == old(connecting).line_buffering,
        final(connecting).line_feeds == old(connecting).line_feeds,
        final(resetting).cols == old(resetting).cols,
        final(resetting).rows == old(resetting).rows,
        final(resetting).echo && final(resetting).line_buffering && final(resetting).line_feeds,
        !final(resetting).connected,
{
}

/// A program that sets the terminal and then reads it sees what it has set. The
/// size in pixels is fixed, and all three streams are connected as soon as one is.
pub proof fn law_terminals_are_read_as_set(
    setting: &mut Tty,
    state: WasiTtyState,
    tty: &Tty,
    read: WasiTtyState,
)
    requires
        call_ensures(Tty::tty_set, (setting, state), ()),
        *tty == *final(setting),
        call_ensures(Tty::tty_get, (tty,), read),
    ensures
        ({
            let connected = state.stdin_tty || state.stdout_tty || state.stderr_tty;
            &&& tty.connected == connected
            &&& tty.cols == state.cols && tty.rows == state.rows
            &&& tty.echo == state.echo
            &&& tty.line_buffering == state.line_buffered
            &&& tty.line_feeds == state.line_feeds
            &&& read.cols == state.cols && read.rows == state.rows
            &&& read.width == 800 && read.height == 600
            &&& read.stdin_tty == connected
            &&& read.stdout_tty == connected
            &&& read.stderr_tty == connected
            &&& read.echo == state.echo
            &&& read.line_buffered == state.line_buffered
            &&& read.line_feeds == state.line_feeds
        }),
{
}

} // verus!
