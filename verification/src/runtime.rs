//! The components that programs run with.
use std::sync::Arc;
use vstd::prelude::*;
use crate::host_exec::HostExecImpl;
use crate::ids;
use crate::ids::IdCounter;
use crate::pipes;
use crate::pipes::{SimplePipe, SimplePipeRx, SimplePipeTx};
use crate::tasks::scheduler::{SharedState, SharedView};
use crate::tasks::scheduler_message::{MessageView, SchedulerMessage};

verus! {

/// What a text is as a URL: its normal form, or why it is none. This names the
/// result of `url::Url::parse`.
pub uninterp spec fn parsed_url(text: Seq<char>) -> Result<Seq<char>, Seq<char>>;

/// Calls `url::Url::parse` and writes the URL, or the error, as text. Parsing
/// depends on nothing but the text.
#[verifier::external_body]
fn parse_url(text: &str) -> (r: Result<String, String>)
    ensures
        match (r, parsed_url(text@)) {
            (Ok(url), Ok(u)) => url@ == u,
            (Err(e), Err(f)) => e@ == f,
            _ => false,
        },
{
    match url::Url::parse(text) {
        Ok(url) => Ok(String::from(url)),
        Err(e) => Err(e.to_string()),
    }
}

/// Why a runtime could not be set up.
#[derive(Debug)]
pub struct RuntimeError {
    pub message: String,
}

impl View for RuntimeError {
    type V = Seq<char>;

    open spec fn view(&self) -> Seq<char> {
        self.message@
    }
}

/// How programs reach the network.
#[derive(Debug)]
pub enum Networking {
    /// They do not.
    Unsupported,
    /// Through a gateway server, at this URL.
    Gateway(String),
}

/// A registry that packages are fetched from.
#[derive(Debug)]
pub struct Registry {
    pub url: String,
    pub token: Option<String>,
}

/// What [`Networking`] says.
pub enum NetworkingView {
    Unsupported,
    Gateway(Seq<char>),
}

/// What a [`Registry`] says.
pub struct RegistryView {
    pub url: Seq<char>,
    pub token: Option<Seq<char>>,
}

impl View for Networking {
    type V = NetworkingView;

    open spec fn view(&self) -> NetworkingView {
        match *self {
            Networking::Unsupported => NetworkingView::Unsupported,
            Networking::Gateway(url) => NetworkingView::Gateway(url@),
        }
    }
}

impl View for Registry {
    type V = RegistryView;

    open spec fn view(&self) -> RegistryView {
        RegistryView {
            url: self.url@,
            token: match self.token {
                Some(token) => Some(token@),
                None => None,
            },
        }
    }
}

/// The components that programs run with. A thread pool is held by handle.
#[derive(Debug)]
pub struct Runtime {
    pub task_manager: Option<u64>,
    pub networking: Networking,
    pub source: Option<Registry>,
}

/// What a [`Runtime`] says.
pub struct RuntimeView {
    pub task_manager: Option<u64>,
    pub networking: NetworkingView,
    pub source: Option<RegistryView>,
}

impl View for Runtime {
    type V = RuntimeView;

    open spec fn view(&self) -> RuntimeView {
        RuntimeView {
            task_manager: self.task_manager,
            networking: self.networking@,
            source: match self.source {
                Some(source) => Some(source@),
                None => None,
            },
        }
    }
}

/// What a runtime shares with its copies.
#[derive(Debug)]
pub struct SharedRuntime {
    pub tty: Tty,
    pub host_exec: HostExecImpl,
}

/// The runtime that nothing has been set on.
pub open spec fn bare_runtime() -> RuntimeView {
    RuntimeView { task_manager: None, networking: NetworkingView::Unsupported, source: None }
}

/// What optional text says.
pub open spec fn optional_text(text: Option<&str>) -> Option<Seq<char>> {
    match text {
        Some(text) => Some(text@),
        None => None,
    }
}

/// A runtime after an attempt to set its registry, from what its text is as a
/// URL. Where it is none, nothing changes.
pub open spec fn with_registry(
    runtime: RuntimeView,
    url: Result<Seq<char>, Seq<char>>,
    token: Option<Seq<char>>,
) -> RuntimeView {
    match url {
        Ok(url) => RuntimeView { source: Some(RegistryView { url, token }), ..runtime },
        Err(_) => runtime,
    }
}

impl Clone for Runtime {
    fn clone(&self) -> (r: Runtime)
        ensures
            r@ == self@,
    {
        let source = match &self.source {
            Some(source) => Some(
                Registry {
                    url: source.url.clone(),
                    token: match &source.token {
                        Some(token) => Some(token.clone()),
                        None => None,
                    },
                },
            ),
            None => None,
        };
        let networking = match &self.networking {
            Networking::Unsupported => Networking::Unsupported,
            Networking::Gateway(url) => Networking::Gateway(url.clone()),
        };
        Runtime { task_manager: self.task_manager, networking, source }
    }
}

impl Runtime {
    /// A runtime that nothing has been set on.
    pub fn new() -> (r: Runtime)
        ensures
            r@ == bare_runtime(),
    {
        Runtime { task_manager: None, networking: Networking::Unsupported, source: None }
    }

    /// A runtime with the given registry.
    pub fn with_defaults(registry: &str) -> (r: Result<Runtime, RuntimeError>)
        ensures
            match (r, parsed_url(registry@)) {
                (Ok(runtime), Ok(url)) => runtime@ == with_registry(bare_runtime(), Ok(url), None),
                (Err(e), Err(f)) => e@ == f,
                _ => false,
            },
    {
        let mut runtime = Runtime::new();
        match runtime.set_registry(registry, None) {
            Ok(_) => Ok(runtime),
            Err(e) => Err(e),
        }
    }

    /// The global runtime: the one that is alive, or else a new one with the
    /// given registry.
    pub fn lazily_initialized(live: Option<Arc<Runtime>>, registry: &str) -> (r: Result<
        Arc<Runtime>,
        RuntimeError,
    >)
        ensures
            match live {
                Some(runtime) => r == Ok::<Arc<Runtime>, RuntimeError>(runtime),
                None => match (r, parsed_url(registry@)) {
                    (Ok(runtime), Ok(url)) => (*runtime)@ == with_registry(
                        bare_runtime(),
                        Ok(url),
                        None,
                    ),
                    (Err(e), Err(f)) => e@ == f,
                    _ => false,
                },
            },
    {
        if let Some(runtime) = live {
            return Ok(runtime);
        }
        match Runtime::with_defaults(registry) {
            Ok(runtime) => Ok(Arc::new(runtime)),
            Err(e) => Err(e),
        }
    }

    /// This runtime with a thread pool.
    pub fn with_task_manager(&self, task_manager: u64) -> (r: Runtime)
        ensures
            r@ == (RuntimeView { task_manager: Some(task_manager), ..self@ }),
    {
        let mut runtime = self.clone();
        runtime.task_manager = Some(task_manager);
        runtime
    }

    /// This runtime with the default thread pool.
    pub fn with_default_pool(&self, default_pool: u64) -> (r: Runtime)
        ensures
            r@ == (RuntimeView { task_manager: Some(default_pool), ..self@ }),
    {
        self.with_task_manager(default_pool)
    }

    /// Sets the function that executes programs on the host. The scheduler
    /// keeps it.
    pub fn set_host_exec_handler(&self, shared: &mut SharedState, handler: u64)
        ensures
            final(shared)@ == (SharedView { host_exec_handler: Some(handler), ..old(shared)@ }),
    {
        shared.host_exec_handler = Some(handler);
    }

    /// What executes programs on the host.
    pub fn host_exec_impl<'a>(&self, shared: &'a SharedRuntime) -> (r: &'a HostExecImpl)
        ensures
            *r == shared.host_exec,
    {
        &shared.host_exec
    }

    /// Sets the registry, from what its text is as a URL.
    pub fn set_parsed_registry(&mut self, url: Result<String, String>, token: Option<&str>) -> (r:
        Result<(), RuntimeError>)
        ensures
            match (url, r) {
                (Ok(url), Ok(_)) => final(self)@ == with_registry(
                    old(self)@,
                    Ok(url@),
                    optional_text(token),
                ),
                (Err(e), Err(f)) => f@ == e@ && final(self)@ == old(self)@,
                _ => false,
            },
    {
        match url {
            Ok(url) => {
                let token = match token {
                    Some(token) => Some(token.to_owned()),
                    None => None,
                };
                self.source = Some(Registry { url, token });
                Ok(())
            },
            Err(message) => Err(RuntimeError { message }),
        }
    }

    /// Sets the registry that packages are fetched from.
    pub fn set_registry(&mut self, url: &str, token: Option<&str>) -> (r: Result<(), RuntimeError>)
        ensures
            final(self)@ == with_registry(old(self)@, parsed_url(url@), optional_text(token)),
            match (parsed_url(url@), r) {
                (Ok(_), Ok(_)) => true,
                (Err(e), Err(f)) => f@ == e,
                _ => false,
            },
    {
        let parsed = parse_url(url);
        self.set_parsed_registry(parsed, token)
    }

    /// Lets programs reach the network through a gateway server.
    pub fn set_network_gateway(&mut self, gateway_url: String)
        ensures
            final(self)@ == (RuntimeView {
                networking: NetworkingView::Gateway(gateway_url@),
                ..old(self)@
            }),
    {
        self.networking = Networking::Gateway(gateway_url);
    }

    /// The thread pool, which must have been set.
    pub fn task_manager(&self) -> (r: u64)
        requires
            self@.task_manager is Some,
        ensures
            Some(r) == self@.task_manager,
    {
        self.task_manager.unwrap()
    }

    /// Where packages are fetched from. Without a registry, nowhere.
    pub fn source(&self) -> (r: Option<&Registry>)
        ensures
            match r {
                Some(registry) => self@.source == Some(registry@),
                None => self@.source is None,
            },
    {
        match &self.source {
            Some(registry) => Some(registry),
            None => None,
        }
    }

    /// Creates a pipe for a program: both its ends, and the message that
    /// registers it.
    pub fn create_pipe(&self, pipe_ids: &mut IdCounter, worker_id: Option<u32>) -> (r: (
        SimplePipeTx,
        SimplePipeRx,
        SchedulerMessage,
    ))
        ensures
            r.0.pipe_id == old(pipe_ids).next,
            r.1.pipe_id == old(pipe_ids).next,
            r.2@ == (MessageView::PipeCreate {
                pipe_id: old(pipe_ids).next,
                worker_id: pipes::sender(worker_id),
            }),
            final(pipe_ids).next == ids::nth_id(old(pipe_ids).next, 1),
    {
        let (pipe, message) = SimplePipe::new(pipe_ids, worker_id);
        let (tx, rx) = pipe.split();
        (tx, rx, message)
    }
}

// ---------------------------------------------------------------------------
// The terminal
// ---------------------------------------------------------------------------

/// The terminal of a runtime.
#[derive(Debug, Clone, Copy)]
pub struct Tty {
    pub cols: u32,
    pub rows: u32,
    pub echo: bool,
    pub line_buffering: bool,
    pub line_feeds: bool,
    /// Whether programs are connected to it.
    pub connected: bool,
}

/// How a terminal is set up.
#[derive(Debug, Clone, Copy)]
pub struct TtyOptions {
    pub cols: u32,
    pub rows: u32,
    pub echo: bool,
    pub line_buffering: bool,
    pub line_feeds: bool,
}

/// The terminal as a program sees it.
#[derive(Debug, Clone, Copy)]
pub struct WasiTtyState {
    pub cols: u32,
    pub rows: u32,
    pub width: u32,
    pub height: u32,
    pub stdin_tty: bool,
    pub stdout_tty: bool,
    pub stderr_tty: bool,
    pub echo: bool,
    pub line_buffered: bool,
    pub line_feeds: bool,
}

/// The terminal as a program sees it. Its size in pixels is fixed.
pub open spec fn tty_state(tty: Tty) -> WasiTtyState {
    WasiTtyState {
        cols: tty.cols,
        rows: tty.rows,
        width: 800,
        height: 600,
        stdin_tty: tty.connected,
        stdout_tty: tty.connected,
        stderr_tty: tty.connected,
        echo: tty.echo,
        line_buffered: tty.line_buffering,
        line_feeds: tty.line_feeds,
    }
}

/// The terminal that a program asks for. It is connected if any of the three
/// streams is.
pub open spec fn tty_from(state: WasiTtyState) -> Tty {
    Tty {
        cols: state.cols,
        rows: state.rows,
        echo: state.echo,
        line_buffering: state.line_buffered,
        line_feeds: state.line_feeds,
        connected: state.stdin_tty || state.stdout_tty || state.stderr_tty,
    }
}

impl Tty {
    /// A terminal with the given options that is not connected.
    pub fn new(options: TtyOptions) -> (r: Tty)
        ensures
            r.options() == options,
            !r.connected,
    {
        Tty {
            cols: options.cols,
            rows: options.rows,
            echo: options.echo,
            line_buffering: options.line_buffering,
            line_feeds: options.line_feeds,
            connected: false,
        }
    }

    /// The terminal's options.
    pub open spec fn options(self) -> TtyOptions {
        TtyOptions {
            cols: self.cols,
            rows: self.rows,
            echo: self.echo,
            line_buffering: self.line_buffering,
            line_feeds: self.line_feeds,
        }
    }

    /// The terminal's options.
    pub fn tty_options(&self) -> (r: TtyOptions)
        ensures
            r == self.options(),
    {
        TtyOptions {
            cols: self.cols,
            rows: self.rows,
            echo: self.echo,
            line_buffering: self.line_buffering,
            line_feeds: self.line_feeds,
        }
    }

    /// Connects programs to the terminal, or disconnects them.
    pub fn set_connected_to_tty(&mut self, state: bool)
        ensures
            *final(self) == (Tty { connected: state, ..*old(self) }),
    {
        self.connected = state;
    }

    /// Puts the terminal back into its usual mode. Its size stays.
    pub fn reset(&mut self)
        ensures
            *final(self) == (Tty {
                echo: true,
                line_buffering: true,
                line_feeds: true,
                connected: false,
                ..*old(self)
            }),
    {
        self.echo = true;
        self.line_buffering = true;
        self.line_feeds = true;
        self.set_connected_to_tty(false);
    }

    /// The terminal as a program sees it.
    pub fn tty_get(&self) -> (r: WasiTtyState)
        ensures
            r == tty_state(*self),
    {
        WasiTtyState {
            cols: self.cols,
            rows: self.rows,
            width: 800,
            height: 600,
            stdin_tty: self.connected,
            stdout_tty: self.connected,
            stderr_tty: self.connected,
            echo: self.echo,
            line_buffered: self.line_buffering,
            line_feeds: self.line_feeds,
        }
    }

    /// Sets the terminal as a program asks.
    pub fn tty_set(&mut self, state: WasiTtyState)
        ensures
            *final(self) == tty_from(state),
    {
        self.cols = state.cols;
        self.rows = state.rows;
        self.echo = state.echo;
        self.line_buffering = state.line_buffered;
        self.line_feeds = state.line_feeds;
        self.set_connected_to_tty(state.stdin_tty || state.stdout_tty || state.stderr_tty);
    }
}

impl SharedRuntime {
    /// What a new runtime shares.
    pub fn new(options: TtyOptions) -> (r: SharedRuntime)
        ensures
            r.host_exec.next_session_id.next == 0,
            r.tty.options() == options,
            !r.tty.connected,
    {
        SharedRuntime { tty: Tty::new(options), host_exec: HostExecImpl::new() }
    }
}

/// Setting a terminal to what was read from it changes nothing, and what is
/// read after it was set is what was set: but for the size in pixels, and with
/// all three streams connected as soon as one is.
pub proof fn law_tty_set_is_read_back(tty: Tty, state: WasiTtyState)
    ensures
        tty_from(tty_state(tty)) == tty,
        ({
            let read = tty_state(tty_from(state));
            let connected = state.stdin_tty || state.stdout_tty || state.stderr_tty;
            read == (WasiTtyState {
                width: 800,
                height: 600,
                stdin_tty: connected,
                stdout_tty: connected,
                stderr_tty: connected,
                ..state
            })
        }),
{
}

} // verus!
