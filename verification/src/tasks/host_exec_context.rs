//! What a host execution handler is given.
use vstd::prelude::*;
use crate::tasks::sessions;

verus! {

/// The terminal that a program runs in.
#[derive(Debug)]
pub struct HostExecTerminal {
    pub term: String,
    pub cols: u32,
    pub rows: u32,
}

/// What a WebAssembly program asks the host to execute.
#[derive(Debug)]
pub struct HostExecRequest {
    pub command: String,
    pub args: Vec<String>,
    /// Environment variables: names and values.
    pub env: Vec<(String, String)>,
    pub cwd: String,
    pub terminal: Option<HostExecTerminal>,
}

/// What a [`HostExecTerminal`] says.
pub struct TerminalView {
    pub term: Seq<char>,
    pub cols: u32,
    pub rows: u32,
}

/// What a [`HostExecRequest`] says.
pub struct RequestView {
    pub command: Seq<char>,
    pub args: Seq<Seq<char>>,
    pub env: Seq<(Seq<char>, Seq<char>)>,
    pub cwd: Seq<char>,
    pub terminal: Option<TerminalView>,
}

impl View for HostExecTerminal {
    type V = TerminalView;

    open spec fn view(&self) -> TerminalView {
        TerminalView { term: self.term@, cols: self.cols, rows: self.rows }
    }
}

/// What a list of texts says.
pub open spec fn texts_view(texts: Seq<String>) -> Seq<Seq<char>> {
    texts.map_values(|text: String| text@)
}

/// What a list of named texts says.
pub open spec fn pairs_view(pairs: Seq<(String, String)>) -> Seq<(Seq<char>, Seq<char>)> {
    pairs.map_values(|pair: (String, String)| (pair.0@, pair.1@))
}

impl View for HostExecRequest {
    type V = RequestView;

    open spec fn view(&self) -> RequestView {
        RequestView {
            command: self.command@,
            args: texts_view(self.args@),
            env: pairs_view(self.env@),
            cwd: self.cwd@,
            terminal: match self.terminal {
                Some(terminal) => Some(terminal@),
                None => None,
            },
        }
    }
}

/// A function that the handler can call.
#[derive(Debug, Clone, Copy, PartialEq, Eq)]
pub enum Callback {
    OnStdout,
    OnStderr,
    SetStdinWriter,
    SetKillFunction,
    RequestSpawn,
    SpawnWriteStdin,
    SpawnCloseStdin,
    SpawnKill,
    SetChildOutputHandlers,
}

/// The value of an entry.
#[derive(Debug)]
pub enum ContextValue {
    Text(String),
    List(Vec<String>),
    Record(Vec<(String, String)>),
    Null,
    Callback(Callback),
    Terminal(HostExecTerminal),
}

/// What a [`ContextValue`] says.
pub enum ContextView {
    Text(Seq<char>),
    List(Seq<Seq<char>>),
    Record(Seq<(Seq<char>, Seq<char>)>),
    Null,
    Callback(Callback),
    Terminal(TerminalView),
}

impl View for ContextValue {
    type V = ContextView;

    open spec fn view(&self) -> ContextView {
        match *self {
            ContextValue::Text(text) => ContextView::Text(text@),
            ContextValue::List(texts) => ContextView::List(texts_view(texts@)),
            ContextValue::Record(pairs) => ContextView::Record(pairs_view(pairs@)),
            ContextValue::Null => ContextView::Null,
            ContextValue::Callback(callback) => ContextView::Callback(callback),
            ContextValue::Terminal(terminal) => ContextView::Terminal(terminal@),
        }
    }
}

/// The object that a handler is called with: named entries, and the session
/// that its callbacks concern.
#[derive(Debug)]
pub struct HostExecContext {
    pub session_id: u64,
    pub entries: Vec<(String, ContextValue)>,
}

/// What a [`HostExecContext`] says.
pub struct HostExecContextView {
    pub session_id: u64,
    pub entries: Seq<(Seq<char>, ContextView)>,
}

impl View for HostExecContext {
    type V = HostExecContextView;

    open spec fn view(&self) -> HostExecContextView {
        HostExecContextView {
            session_id: self.session_id,
            entries: self.entries@.map_values(
                |entry: (String, ContextValue)| (entry.0@, entry.1@),
            ),
        }
    }
}

/// The entries that come before the terminal.
pub open spec fn leading_entries(request: RequestView) -> Seq<(Seq<char>, ContextView)> {
    seq![
        ("command"@, ContextView::Text(request.command)),
        ("args"@, ContextView::List(request.args)),
        ("env"@, ContextView::Record(request.env)),
        ("cwd"@, ContextView::Text(request.cwd)),
        ("stdin"@, ContextView::Null),
        ("stdout"@, ContextView::Null),
        ("stderr"@, ContextView::Null),
        ("onStdout"@, ContextView::Callback(Callback::OnStdout)),
        ("onStderr"@, ContextView::Callback(Callback::OnStderr)),
        ("setStdinWriter"@, ContextView::Callback(Callback::SetStdinWriter)),
        ("setKillFunction"@, ContextView::Callback(Callback::SetKillFunction)),
    ]
}

/// The entries that come after the terminal.
pub open spec fn trailing_entries() -> Seq<(Seq<char>, ContextView)> {
    seq![
        ("requestSpawn"@, ContextView::Callback(Callback::RequestSpawn)),
        ("spawnWriteStdin"@, ContextView::Callback(Callback::SpawnWriteStdin)),
        ("spawnCloseStdin"@, ContextView::Callback(Callback::SpawnCloseStdin)),
        ("spawnKill"@, ContextView::Callback(Callback::SpawnKill)),
        ("setChildOutputHandlers"@, ContextView::Callback(Callback::SetChildOutputHandlers)),
    ]
}

/// What a handler is given for a request. The terminal is left out where there
/// is none.
pub open spec fn context_of(request: RequestView, session_id: u64) -> HostExecContextView {
    HostExecContextView {
        session_id,
        entries: leading_entries(request) + (match request.terminal {
            Some(terminal) => seq![("terminal"@, ContextView::Terminal(terminal))],
            None => Seq::empty(),
        }) + trailing_entries(),
    }
}

/// Copies a list of texts.
fn copy_texts(texts: &Vec<String>) -> (r: Vec<String>)
    ensures
        texts_view(r@) == texts_view(texts@),
{
    let mut copy: Vec<String> = Vec::new();
    let mut i: usize = 0;
    while i < texts.len()
        invariant
            i <= texts@.len(),
            texts_view(copy@) == texts_view(texts@.take(i as int)),
        decreases texts@.len() - i,
    {
        let ghost done = copy@;
        copy.push(texts[i].clone());
        assert(texts_view(copy@) =~= texts_view(done).push(texts@[i as int]@));
        assert(texts_view(texts@.take(i + 1)) =~= texts_view(texts@.take(i as int)).push(
            texts@[i as int]@,
        ));
        i = i + 1;
    }
    assert(texts@.take(i as int) =~= texts@);
    copy
}

/// Copies a list of named texts.
fn copy_pairs(pairs: &Vec<(String, String)>) -> (r: Vec<(String, String)>)
    ensures
        pairs_view(r@) == pairs_view(pairs@),
{
    let mut copy: Vec<(String, String)> = Vec::new();
    let mut i: usize = 0;
    while i < pairs.len()
        invariant
            i <= pairs@.len(),
            pairs_view(copy@) == pairs_view(pairs@.take(i as int)),
        decreases pairs@.len() - i,
    {
        let ghost done = copy@;
        copy.push((pairs[i].0.clone(), pairs[i].1.clone()));
        assert(pairs_view(copy@) =~= pairs_view(done).push(
            (pairs@[i as int].0@, pairs@[i as int].1@),
        ));
        assert(pairs_view(pairs@.take(i + 1)) =~= pairs_view(pairs@.take(i as int)).push(
            (pairs@[i as int].0@, pairs@[i as int].1@),
        ));
        i = i + 1;
    }
    assert(pairs@.take(i as int) =~= pairs@);
    copy
}

/// Creates what a handler is given for a request.
pub fn create_host_exec_context(request: &HostExecRequest, session_id: u64) -> (r: HostExecContext)
    ensures
        r@ == context_of(request@, session_id),
{
    let mut entries: Vec<(String, ContextValue)> = Vec::new();
    entries.push(("command".to_owned(), ContextValue::Text(request.command.clone())));
    entries.push(("args".to_owned(), ContextValue::List(copy_texts(&request.args))));
    entries.push(("env".to_owned(), ContextValue::Record(copy_pairs(&request.env))));
    entries.push(("cwd".to_owned(), ContextValue::Text(request.cwd.clone())));
    entries.push(("stdin".to_owned(), ContextValue::Null));
    entries.push(("stdout".to_owned(), ContextValue::Null));
    entries.push(("stderr".to_owned(), ContextValue::Null));
    entries.push(("onStdout".to_owned(), ContextValue::Callback(Callback::OnStdout)));
    entries.push(("onStderr".to_owned(), ContextValue::Callback(Callback::OnStderr)));
    entries.push(("setStdinWriter".to_owned(), ContextValue::Callback(Callback::SetStdinWriter)));
    entries.push(
        ("setKillFunction".to_owned(), ContextValue::Callback(Callback::SetKillFunction)),
    );
    if let Some(terminal) = &request.terminal {
        let terminal = HostExecTerminal {
            term: terminal.term.clone(),
            cols: terminal.cols,
            rows: terminal.rows,
        };
        entries.push(("terminal".to_owned(), ContextValue::Terminal(terminal)));
    }
    entries.push(("requestSpawn".to_owned(), ContextValue::Callback(Callback::RequestSpawn)));
    entries.push(("spawnWriteStdin".to_owned(), ContextValue::Callback(Callback::SpawnWriteStdin)));
    entries.push(("spawnCloseStdin".to_owned(), ContextValue::Callback(Callback::SpawnCloseStdin)));
    entries.push(("spawnKill".to_owned(), ContextValue::Callback(Callback::SpawnKill)));
    entries.push(
        (
            "setChildOutputHandlers".to_owned(),
            ContextValue::Callback(Callback::SetChildOutputHandlers),
        ),
    );
    let context = HostExecContext { session_id, entries };
    assert(context@.entries =~= context_of(request@, session_id).entries);
    context
}

/// The value of an entry of a spawn request.
#[derive(Debug, Clone, Copy, PartialEq, Eq)]
pub enum SpawnValue {
    /// The child's id.
    ChildId(u64),
    /// A value that the host gave, by handle.
    Given(u64),
}

/// What the host asks for when it asks for a child. Arguments and environment
/// are left out where they cannot be parsed.
pub open spec fn spawn_request_of(
    child_id: Option<u64>,
    command: u64,
    args: Option<u64>,
    env: Option<u64>,
    cwd: u64,
) -> Seq<(Seq<char>, SpawnValue)> {
    seq![
        ("child_id"@, SpawnValue::ChildId(sessions::named_child(child_id))),
        ("command"@, SpawnValue::Given(command)),
    ] + (match args {
        Some(args) => seq![("args"@, SpawnValue::Given(args))],
        None => Seq::empty(),
    }) + (match env {
        Some(env) => seq![("env"@, SpawnValue::Given(env))],
        None => Seq::empty(),
    }) + seq![("cwd"@, SpawnValue::Given(cwd))]
}

/// Creates the request for a child, as named entries.
pub fn create_spawn_request(
    child_id: Option<u64>,
    command: u64,
    args: Option<u64>,
    env: Option<u64>,
    cwd: u64,
) -> (r: Vec<(String, SpawnValue)>)
    ensures
        r@.map_values(|entry: (String, SpawnValue)| (entry.0@, entry.1)) == spawn_request_of(
            child_id,
            command,
            args,
            env,
            cwd,
        ),
{
    let mut entries: Vec<(String, SpawnValue)> = Vec::new();
    entries.push(
        ("child_id".to_owned(), SpawnValue::ChildId(sessions::child_named(child_id))),
    );
    entries.push(("command".to_owned(), SpawnValue::Given(command)));
    if let Some(args) = args {
        entries.push(("args".to_owned(), SpawnValue::Given(args)));
    }
    if let Some(env) = env {
        entries.push(("env".to_owned(), SpawnValue::Given(env)));
    }
    entries.push(("cwd".to_owned(), SpawnValue::Given(cwd)));
    assert(entries@.map_values(|entry: (String, SpawnValue)| (entry.0@, entry.1))
        =~= spawn_request_of(child_id, command, args, env, cwd));
    entries
}

/// No two entries of a context have the same name, so none hides another.
pub proof fn law_context_entries_are_distinct(request: RequestView, session_id: u64, i: int, j: int)
    requires
        0 <= i < j < context_of(request, session_id).entries.len(),
    ensures
        context_of(request, session_id).entries[i].0 != context_of(
            request,
            session_id,
        ).entries[j].0,
{
    reveal_strlit("command");
    reveal_strlit("args");
    reveal_strlit("env");
    reveal_strlit("cwd");
    reveal_strlit("stdin");
    reveal_strlit("stdout");
    reveal_strlit("stderr");
    reveal_strlit("onStdout");
    reveal_strlit("onStderr");
    reveal_strlit("setStdinWriter");
    reveal_strlit("setKillFunction");
    reveal_strlit("terminal");
    reveal_strlit("requestSpawn");
    reveal_strlit("spawnWriteStdin");
    reveal_strlit("spawnCloseStdin");
    reveal_strlit("spawnKill");
    reveal_strlit("setChildOutputHandlers");
    assert("command"@.len() == 7);
    assert("args"@.len() == 4);
    assert("env"@.len() == 3 && "env"@[0] == 'e');
    assert("cwd"@.len() == 3 && "cwd"@[0] == 'c');
    assert("stdin"@.len() == 5);
    assert("stdout"@.len() == 6 && "stdout"@[3] == 'o');
    assert("stderr"@.len() == 6 && "stderr"@[3] == 'e');
    assert("onStdout"@.len() == 8 && "onStdout"@[5] == 'o');
    assert("onStderr"@.len() == 8 && "onStderr"@[5] == 'e');
    assert("terminal"@.len() == 8 && "terminal"@[5] == 'n');
    assert("setStdinWriter"@.len() == 14);
    assert("setKillFunction"@.len() == 15 && "setKillFunction"@[5] == 'l');
    assert("requestSpawn"@.len() == 12);
    assert("spawnWriteStdin"@.len() == 15 && "spawnWriteStdin"@[5] == 'W');
    assert("spawnCloseStdin"@.len() == 15 && "spawnCloseStdin"@[5] == 'C');
    assert("spawnKill"@.len() == 9);
    assert("setChildOutputHandlers"@.len() == 22);
}

} // verus!
