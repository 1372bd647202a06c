//! How the scheduler answers a worker that is blocked on its shared buffer.
//!
//! Each worker owns a shared buffer. It blocks on word 0 until the scheduler
//! has written an answer there. The scheduler's side of an answer is a list of
//! [`BufferStore`]s, carried out in order; the worker's side reads the buffer's
//! bytes back. The words of a host execution answer are:
//!
//! - word 0: status (0 = waiting, 1 = answer ready, 2 = no data or not ready)
//! - word 1: message type
//! - word 2: number of data bytes, or the exit code
//! - word 3: session id
//! - from byte 16 on: data bytes
//!
//! The answer to a pipe read keeps its status in word 0 (1 = data, 2 = end of
//! file), the number of bytes in word 1, and its data from word 16 (byte 64) on.
use vstd::prelude::*;
use crate::words;

verus! {

/// Output of a host process on its standard output.
pub const MSG_TYPE_STDOUT: u32 = 1;

/// Output of a host process on its standard error.
pub const MSG_TYPE_STDERR: u32 = 2;

/// A host process has exited.
pub const MSG_TYPE_EXIT: u32 = 3;

/// The host asks for a child process to be spawned.
pub const MSG_TYPE_SPAWN_REQUEST: u32 = 10;

/// The host writes to a child's standard input.
pub const MSG_TYPE_SPAWN_STDIN: u32 = 11;

/// The host closes a child's standard input.
pub const MSG_TYPE_SPAWN_CLOSE_STDIN: u32 = 12;

/// The host signals a child.
pub const MSG_TYPE_SPAWN_KILL: u32 = 13;

/// A child wrote to its standard output.
pub const MSG_TYPE_CHILD_STDOUT: u32 = 20;

/// A child wrote to its standard error.
pub const MSG_TYPE_CHILD_STDERR: u32 = 21;

/// A child has exited.
pub const MSG_TYPE_CHILD_EXIT: u32 = 22;

/// Where the data of a host execution answer starts, in bytes.
pub const HOST_DATA_OFFSET: u32 = 16;

/// Where the data of a pipe answer starts, in bytes.
pub const PIPE_DATA_OFFSET: u32 = 64;

/// One step of writing an answer into a worker's shared buffer.
#[derive(Debug)]
pub enum BufferStore {
    /// Atomically store a word.
    Word { index: u32, value: i32 },
    /// Write bytes, the first of them at `offset`.
    Bytes { offset: u32, data: Vec<u8> },
    /// Wake the worker that waits on a word.
    Notify { index: u32 },
}

/// What a [`BufferStore`] says.
pub enum StoreView {
    Word { index: u32, value: i32 },
    Bytes { offset: u32, data: Seq<u8> },
    Notify { index: u32 },
}

impl View for BufferStore {
    type V = StoreView;

    open spec fn view(&self) -> StoreView {
        match *self {
            BufferStore::Word { index, value } => StoreView::Word { index, value },
            BufferStore::Bytes { offset, data } => StoreView::Bytes { offset, data: data@ },
            BufferStore::Notify { index } => StoreView::Notify { index },
        }
    }
}

/// What a list of stores says.
pub open spec fn stores_view(stores: Seq<BufferStore>) -> Seq<StoreView> {
    stores.map_values(|s: BufferStore| s@)
}

/// What optional bytes hold.
pub open spec fn optional_bytes(data: Option<Vec<u8>>) -> Option<Seq<u8>> {
    match data {
        Some(data) => Some(data@),
        None => None,
    }
}

/// One message from a host process, as a worker receives it.
#[derive(Debug)]
pub enum HostExecOutput {
    Stdout(Vec<u8>),
    Stderr(Vec<u8>),
    Exit(i32),
    /// A message that is left to the WebAssembly program, such as a request to
    /// spawn a child.
    Raw { msg_type: u32, data: Vec<u8> },
}

/// What a [`HostExecOutput`] says.
pub enum OutputView {
    Stdout(Seq<u8>),
    Stderr(Seq<u8>),
    Exit(i32),
    Raw { msg_type: u32, data: Seq<u8> },
}

impl View for HostExecOutput {
    type V = OutputView;

    open spec fn view(&self) -> OutputView {
        match *self {
            HostExecOutput::Stdout(data) => OutputView::Stdout(data@),
            HostExecOutput::Stderr(data) => OutputView::Stderr(data@),
            HostExecOutput::Exit(code) => OutputView::Exit(code),
            HostExecOutput::Raw { msg_type, data } => OutputView::Raw { msg_type, data: data@ },
        }
    }
}

/// The output that carries `data` under a message type other than exit.
pub open spec fn data_output(msg_type: u32, data: Seq<u8>) -> OutputView {
    if msg_type == MSG_TYPE_STDOUT {
        OutputView::Stdout(data)
    } else if msg_type == MSG_TYPE_STDERR {
        OutputView::Stderr(data)
    } else {
        OutputView::Raw { msg_type, data }
    }
}

// ---------------------------------------------------------------------------
// The buffer
// ---------------------------------------------------------------------------

/// The signed word at `index` of a buffer.
pub open spec fn word_at(buffer: Seq<u8>, index: int) -> i32 {
    words::i32_from_le(buffer.subrange(4 * index, 4 * index + 4))
}

/// `len` bytes of a buffer from `offset` on. Bytes past the end read as zero.
pub open spec fn bytes_at(buffer: Seq<u8>, offset: int, len: nat) -> Seq<u8> {
    Seq::new(
        len,
        |i: int|
            if offset + i < buffer.len() {
                buffer[offset + i]
            } else {
                0u8
            },
    )
}

/// A buffer after one store. What would fall past its end is not written.
pub open spec fn stored(buffer: Seq<u8>, store: StoreView) -> Seq<u8> {
    match store {
        StoreView::Word { index, value } => if 4 * index + 4 <= buffer.len() {
            overwritten(buffer, 4 * index, words::le_bytes_i32(value))
        } else {
            buffer
        },
        StoreView::Bytes { offset, data } => overwritten(buffer, offset as int, data),
        StoreView::Notify { .. } => buffer,
    }
}

/// `buffer` with `data` written over it from `offset` on.
pub open spec fn overwritten(buffer: Seq<u8>, offset: int, data: Seq<u8>) -> Seq<u8> {
    Seq::new(
        buffer.len(),
        |i: int|
            if offset <= i < offset + data.len() {
                data[i - offset]
            } else {
                buffer[i]
            },
    )
}

/// A buffer after a list of stores.
pub open spec fn stored_all(buffer: Seq<u8>, stores: Seq<StoreView>) -> Seq<u8>
    decreases stores.len(),
{
    if stores.len() == 0 {
        buffer
    } else {
        stored(stored_all(buffer, stores.drop_last()), stores.last())
    }
}

// ---------------------------------------------------------------------------
// The scheduler's side
// ---------------------------------------------------------------------------

/// The stores that answer a host execution read.
pub open spec fn read_response_stores(
    session_id: u64,
    msg_type: u32,
    value: i32,
    data: Option<Seq<u8>>,
) -> Seq<StoreView> {
    seq![
        StoreView::Word { index: 1, value: words::signed_word(msg_type) },
        StoreView::Word { index: 2, value },
        StoreView::Word { index: 3, value: words::low_word(session_id as int) },
    ] + (match data {
        Some(data) => seq![StoreView::Bytes { offset: HOST_DATA_OFFSET, data }],
        None => Seq::empty(),
    }) + seq![StoreView::Word { index: 0, value: 1 }, StoreView::Notify { index: 0 }]
}

/// The stores that answer a host execution read with data.
pub open spec fn data_response_stores(session_id: u64, msg_type: u32, data: Seq<u8>) -> Seq<
    StoreView,
> {
    read_response_stores(session_id, msg_type, words::low_word(data.len() as int), Some(data))
}

/// The stores that answer a host execution read with an exit code.
pub open spec fn exit_response_stores(session_id: u64, exit_code: i32) -> Seq<StoreView> {
    read_response_stores(session_id, MSG_TYPE_EXIT, exit_code, None)
}

/// The stores that answer with a status alone.
pub open spec fn status_response_stores(session_id: u64, status: i32) -> Seq<StoreView> {
    seq![
        StoreView::Word { index: 3, value: words::low_word(session_id as int) },
        StoreView::Word { index: 0, value: status },
        StoreView::Notify { index: 0 },
    ]
}

/// The stores that answer a pipe read: data, or end of file.
pub open spec fn pipe_response_stores(data: Option<Seq<u8>>) -> Seq<StoreView> {
    match data {
        Some(data) => seq![
            StoreView::Word { index: 1, value: words::low_word(data.len() as int) },
            StoreView::Bytes { offset: PIPE_DATA_OFFSET, data },
            StoreView::Word { index: 0, value: 1 },
            StoreView::Notify { index: 0 },
        ],
        None => seq![StoreView::Word { index: 0, value: 2 }, StoreView::Notify { index: 0 }],
    }
}

/// Answers a host execution read. The status is written after everything else,
/// so that a worker that sees it set finds the whole answer in place.
pub fn read_response(session_id: u64, msg_type: u32, value: i32, data: Option<Vec<u8>>) -> (r: Vec<
    BufferStore,
>)
    ensures
        stores_view(r@) == read_response_stores(
            session_id,
            msg_type,
            value,
            optional_bytes(data),
        ),
{
    let ghost given = optional_bytes(data);
    let mut stores: Vec<BufferStore> = Vec::new();
    stores.push(BufferStore::Word { index: 1, value: words::to_signed_word(msg_type) });
    stores.push(BufferStore::Word { index: 2, value });
    stores.push(BufferStore::Word { index: 3, value: words::to_low_word(session_id) });
    if let Some(data) = data {
        stores.push(BufferStore::Bytes { offset: HOST_DATA_OFFSET, data });
    }
    stores.push(BufferStore::Word { index: 0, value: 1 });
    stores.push(BufferStore::Notify { index: 0 });
    assert(stores_view(stores@) =~= read_response_stores(session_id, msg_type, value, given));
    stores
}

/// Answers a host execution read with data.
pub fn data_response(session_id: u64, msg_type: u32, data: Vec<u8>) -> (r: Vec<BufferStore>)
    ensures
        stores_view(r@) == data_response_stores(session_id, msg_type, data@),
{
    let len = words::to_low_word(data.len() as u64);
    read_response(session_id, msg_type, len, Some(data))
}

/// Answers a host execution read with the exit code of the process.
pub fn exit_response(session_id: u64, exit_code: i32) -> (r: Vec<BufferStore>)
    ensures
        stores_view(r@) == exit_response_stores(session_id, exit_code),
{
    read_response(session_id, MSG_TYPE_EXIT, exit_code, None)
}

/// Answers with a status alone.
fn status_response(session_id: u64, status: i32) -> (r: Vec<BufferStore>)
    ensures
        stores_view(r@) == status_response_stores(session_id, status),
{
    let mut stores: Vec<BufferStore> = Vec::new();
    stores.push(BufferStore::Word { index: 3, value: words::to_low_word(session_id) });
    stores.push(BufferStore::Word { index: 0, value: status });
    stores.push(BufferStore::Notify { index: 0 });
    assert(stores_view(stores@) =~= status_response_stores(session_id, status));
    stores
}

/// Answers a read that does not wait, when there is nothing to read.
pub fn no_data_response(session_id: u64) -> (r: Vec<BufferStore>)
    ensures
        stores_view(r@) == status_response_stores(session_id, 2),
{
    status_response(session_id, 2)
}

/// Answers a poll.
pub fn poll_response(session_id: u64, is_ready: bool) -> (r: Vec<BufferStore>)
    ensures
        stores_view(r@) == status_response_stores(
            session_id,
            if is_ready {
                1
            } else {
                2
            },
        ),
{
    let status: i32 = if is_ready {
        1
    } else {
        2
    };
    status_response(session_id, status)
}

/// Answers a pipe read with data, or with the end of the file.
pub fn pipe_response(data: Option<Vec<u8>>) -> (r: Vec<BufferStore>)
    ensures
        stores_view(r@) == pipe_response_stores(
            optional_bytes(data),
        ),
{
    let ghost given = optional_bytes(data);
    let mut stores: Vec<BufferStore> = Vec::new();
    match data {
        Some(data) => {
            stores.push(BufferStore::Word { index: 1, value: words::to_low_word(data.len() as u64) });
            stores.push(BufferStore::Bytes { offset: PIPE_DATA_OFFSET, data });
            stores.push(BufferStore::Word { index: 0, value: 1 });
        },
        None => {
            stores.push(BufferStore::Word { index: 0, value: 2 });
        },
    }
    stores.push(BufferStore::Notify { index: 0 });
    assert(stores_view(stores@) =~= pipe_response_stores(given));
    stores
}

// ---------------------------------------------------------------------------
// The worker's side
// ---------------------------------------------------------------------------

/// Why a worker could not use a host execution answer.
#[derive(Debug)]
pub enum ResponseError {
    /// The answer belongs to another session.
    SessionMismatch { expected: u64, got: u64 },
}

/// Whether the answer in a buffer names a number of bytes that can be read.
pub open spec fn has_readable_length(buffer: Seq<u8>) -> bool {
    words::unsigned_word(word_at(buffer, 1)) == MSG_TYPE_EXIT || word_at(buffer, 2) >= 0
}

/// The output that a buffer holds.
pub open spec fn output_at(buffer: Seq<u8>) -> OutputView {
    let msg_type = words::unsigned_word(word_at(buffer, 1));
    let value = word_at(buffer, 2);
    if msg_type == MSG_TYPE_EXIT {
        OutputView::Exit(value)
    } else {
        data_output(msg_type, bytes_at(buffer, HOST_DATA_OFFSET as int, value as nat))
    }
}

/// The session that a buffer's answer names. Only 32 bits of the session id are
/// sent, and they are widened with their sign.
pub open spec fn session_at(buffer: Seq<u8>) -> u64 {
    words::sign_extended(word_at(buffer, 3))
}

/// Reads the word at `index`.
fn load_word(buffer: &[u8], index: usize) -> (r: i32)
    requires
        index < 16,
        4 * index + 4 <= buffer@.len(),
    ensures
        r == word_at(buffer@, index as int),
{
    words::read_i32_le(buffer, 4 * index)
}

/// Copies `len` bytes from `offset` on. Bytes past the end read as zero.
fn load_bytes(buffer: &[u8], offset: usize, len: usize) -> (r: Vec<u8>)
    requires
        offset + len <= usize::MAX,
    ensures
        r@ == bytes_at(buffer@, offset as int, len as nat),
{
    let mut data: Vec<u8> = Vec::new();
    let mut i: usize = 0;
    while i < len
        invariant
            i <= len,
            offset + len <= usize::MAX,
            data@ == bytes_at(buffer@, offset as int, i as nat),
        decreases len - i,
    {
        let byte: u8 = if offset + i < buffer.len() {
            buffer[offset + i]
        } else {
            0
        };
        data.push(byte);
        i = i + 1;
        assert(data@ =~= bytes_at(buffer@, offset as int, i as nat));
    }
    data
}

/// Whether the answer in a buffer belongs to `session`.
pub fn answers_session(buffer: &[u8], session: u64) -> (r: bool)
    requires
        buffer@.len() >= HOST_DATA_OFFSET,
    ensures
        r == (session_at(buffer@) == session),
{
    words::to_sign_extended(load_word(buffer, 3)) == session
}

/// Whether the answer in a buffer says that there is no data.
pub fn has_no_data(buffer: &[u8]) -> (r: bool)
    requires
        buffer@.len() >= HOST_DATA_OFFSET,
    ensures
        r == (word_at(buffer@, 0) == 2),
{
    load_word(buffer, 0) == 2
}

/// Whether the answer in a buffer names a number of bytes that can be read.
pub fn is_readable(buffer: &[u8]) -> (r: bool)
    requires
        buffer@.len() >= HOST_DATA_OFFSET,
    ensures
        r == has_readable_length(buffer@),
{
    words::to_unsigned_word(load_word(buffer, 1)) == MSG_TYPE_EXIT || load_word(buffer, 2) >= 0
}

/// Reads the output that a buffer holds.
pub fn load_output(buffer: &[u8]) -> (r: HostExecOutput)
    requires
        buffer@.len() >= HOST_DATA_OFFSET,
        has_readable_length(buffer@),
    ensures
        r@ == output_at(buffer@),
{
    let msg_type = words::to_unsigned_word(load_word(buffer, 1));
    let value = load_word(buffer, 2);
    if msg_type == MSG_TYPE_EXIT {
        return HostExecOutput::Exit(value);
    }
    let data = load_bytes(buffer, 16, value as usize);
    if msg_type == MSG_TYPE_STDOUT {
        HostExecOutput::Stdout(data)
    } else if msg_type == MSG_TYPE_STDERR {
        HostExecOutput::Stderr(data)
    } else {
        HostExecOutput::Raw { msg_type, data }
    }
}

/// Reads the answer to a read for `session`.
pub fn load_read_response(buffer: &[u8], session: u64) -> (r: Result<HostExecOutput, ResponseError>)
    requires
        buffer@.len() >= HOST_DATA_OFFSET,
        session_at(buffer@) == session ==> has_readable_length(buffer@),
    ensures
        match r {
            Ok(output) => session_at(buffer@) == session && output@ == output_at(buffer@),
            Err(error) => session_at(buffer@) != session && error
                == (ResponseError::SessionMismatch { expected: session, got: session_at(buffer@) }),
        },
{
    if !answers_session(buffer, session) {
        let got = words::to_sign_extended(load_word(buffer, 3));
        return Err(ResponseError::SessionMismatch { expected: session, got });
    }
    Ok(load_output(buffer))
}

/// Reads the answer to a read that does not wait: nothing when the status says
/// that there was no data.
pub fn load_try_read_response(buffer: &[u8]) -> (r: Option<HostExecOutput>)
    requires
        buffer@.len() >= HOST_DATA_OFFSET,
        word_at(buffer@, 0) != 2 ==> has_readable_length(buffer@),
    ensures
        match r {
            Some(output) => word_at(buffer@, 0) != 2 && output@ == output_at(buffer@),
            None => word_at(buffer@, 0) == 2,
        },
{
    if has_no_data(buffer) {
        return None;
    }
    Some(load_output(buffer))
}

/// Reads the answer to a poll.
pub fn load_poll_response(buffer: &[u8]) -> (r: bool)
    requires
        buffer@.len() >= HOST_DATA_OFFSET,
    ensures
        r == (word_at(buffer@, 0) == 1),
{
    load_word(buffer, 0) == 1
}

/// How many bytes a pipe answer leaves in a destination of `capacity` bytes. A
/// length that does not fit, such as a negative one, fills the destination.
pub open spec fn pipe_copied(buffer: Seq<u8>, capacity: nat) -> nat {
    let len = word_at(buffer, 1);
    if 0 <= len <= capacity {
        len as nat
    } else {
        capacity
    }
}

/// Reads the answer to a pipe read into `destination`. `None` stands for an
/// answer that is neither data nor end of file.
pub fn load_pipe_response(buffer: &[u8], destination: &mut [u8]) -> (r: Option<usize>)
    requires
        buffer@.len() >= 8,
    ensures
        word_at(buffer@, 0) == 1 ==> {
            let n = pipe_copied(buffer@, old(destination)@.len());
            &&& r is Some && r->0 == n
            &&& final(destination)@ == bytes_at(buffer@, PIPE_DATA_OFFSET as int, n) + old(
                destination,
            )@.skip(n as int)
        },
        word_at(buffer@, 0) == 2 ==> r == Some(0usize) && final(destination)@ == old(destination)@,
        word_at(buffer@, 0) != 1 && word_at(buffer@, 0) != 2 ==> r is None && final(destination)@
            == old(destination)@,
{
    let status = load_word(buffer, 0);
    if status == 1 {
        let len = load_word(buffer, 1);
        let capacity = destination.len();
        let to_copy: usize = if 0 <= len && len as usize <= capacity {
            len as usize
        } else {
            capacity
        };
        let ghost before = destination@;
        let mut i: usize = 0;
        while i < to_copy
            invariant
                i <= to_copy <= before.len(),
                destination@.len() == before.len(),
                destination@ == bytes_at(buffer@, PIPE_DATA_OFFSET as int, i as nat) + before.skip(
                    i as int,
                ),
            decreases to_copy - i,
        {
            let byte: u8 = if buffer.len() > 64 && i < buffer.len() - 64 {
                buffer[64 + i]
            } else {
                0
            };
            destination[i] = byte;
            i = i + 1;
            assert(destination@ =~= bytes_at(buffer@, PIPE_DATA_OFFSET as int, i as nat)
                + before.skip(i as int));
        }
        Some(to_copy)
    } else if status == 2 {
        Some(0)
    } else {
        None
    }
}

// ---------------------------------------------------------------------------
// Laws
// ---------------------------------------------------------------------------

/// Storing a word changes that word and no other word, and no byte behind it.
pub proof fn lemma_word_stored(buffer: Seq<u8>, index: u32, value: i32, other: int)
    requires
        4 * index + 4 <= buffer.len(),
        0 <= other,
        4 * other + 4 <= buffer.len(),
    ensures
        stored(buffer, StoreView::Word { index, value }).len() == buffer.len(),
        word_at(stored(buffer, StoreView::Word { index, value }), other) == (if other == index {
            value
        } else {
            word_at(buffer, other)
        }),
        forall|j: int|
            4 * index + 4 <= j < buffer.len() ==> #[trigger] stored(
                buffer,
                StoreView::Word { index, value },
            )[j] == buffer[j],
{
    let after = stored(buffer, StoreView::Word { index, value });
    words::lemma_le_i32_round_trip(value);
    if other == index {
        assert(after.subrange(4 * other, 4 * other + 4) =~= words::le_bytes_i32(value));
    } else {
        assert(after.subrange(4 * other, 4 * other + 4) =~= buffer.subrange(
            4 * other,
            4 * other + 4,
        ));
    }
}

/// Writing bytes leaves the words before them alone and can be read back as far
/// as they fit.
pub proof fn lemma_bytes_stored(buffer: Seq<u8>, offset: u32, data: Seq<u8>, word: int)
    requires
        0 <= word,
        4 * word + 4 <= offset,
        4 * word + 4 <= buffer.len(),
    ensures
        stored(buffer, StoreView::Bytes { offset, data }).len() == buffer.len(),
        word_at(stored(buffer, StoreView::Bytes { offset, data }), word) == word_at(buffer, word),
        offset + data.len() <= buffer.len() ==> bytes_at(
            stored(buffer, StoreView::Bytes { offset, data }),
            offset as int,
            data.len(),
        ) == data,
{
    let after = stored(buffer, StoreView::Bytes { offset, data });
    assert(after.subrange(4 * word, 4 * word + 4) =~= buffer.subrange(4 * word, 4 * word + 4));
    if offset + data.len() <= buffer.len() {
        assert(bytes_at(after, offset as int, data.len()) =~= data);
    }
}

/// The words that an answer to a host execution read leaves in the buffer.
pub proof fn lemma_read_response_words(
    buffer: Seq<u8>,
    session_id: u64,
    msg_type: u32,
    value: i32,
    data: Option<Seq<u8>>,
)
    requires
        buffer.len() >= HOST_DATA_OFFSET,
    ensures
        ({
            let after = stored_all(
                buffer,
                read_response_stores(session_id, msg_type, value, data),
            );
            &&& after.len() == buffer.len()
            &&& word_at(after, 0) == 1
            &&& word_at(after, 1) == words::signed_word(msg_type)
            &&& word_at(after, 2) == value
            &&& word_at(after, 3) == words::low_word(session_id as int)
            &&& data is Some && HOST_DATA_OFFSET + data->0.len() <= buffer.len() ==> bytes_at(
                after,
                HOST_DATA_OFFSET as int,
                data->0.len(),
            ) == data->0
        }),
{
    reveal_with_fuel(stored_all, 8);
    let stores = read_response_stores(session_id, msg_type, value, data);
    let b0 = buffer;
    let b1 = stored(b0, StoreView::Word { index: 1, value: words::signed_word(msg_type) });
    let b2 = stored(b1, StoreView::Word { index: 2, value });
    let b3 = stored(b2, StoreView::Word { index: 3, value: words::low_word(session_id as int) });
    let b4 = match data {
        Some(data) => stored(b3, StoreView::Bytes { offset: HOST_DATA_OFFSET, data }),
        None => b3,
    };
    let b5 = stored(b4, StoreView::Word { index: 0, value: 1 });
    let tail = stores.drop_last();
    let middle = tail.drop_last();
    assert(stores.last() == StoreView::Notify { index: 0 });
    assert(tail.last() == StoreView::Word { index: 0, value: 1 });
    let head = seq![
        StoreView::Word { index: 1, value: words::signed_word(msg_type) },
        StoreView::Word { index: 2, value },
        StoreView::Word { index: 3, value: words::low_word(session_id as int) },
    ];
    assert(head.drop_last().drop_last().drop_last() =~= Seq::empty());
    assert(stored_all(buffer, head) == b3);
    match data {
        Some(data) => {
            assert(middle.drop_last() =~= head);
            assert(middle.last() == StoreView::Bytes { offset: HOST_DATA_OFFSET, data });
        },
        None => {
            assert(middle =~= head);
        },
    }
    assert(stored_all(buffer, stores) == b5);
    assert forall|w: int| 0 <= w < 4 implies #[trigger] word_at(b5, w) == (if w == 0 {
        1
    } else if w == 1 {
        words::signed_word(msg_type)
    } else if w == 2 {
        value
    } else {
        words::low_word(session_id as int)
    }) by {
        lemma_word_stored(b0, 1, words::signed_word(msg_type), w);
        lemma_word_stored(b1, 2, value, w);
        lemma_word_stored(b2, 3, words::low_word(session_id as int), w);
        if data is Some {
            lemma_bytes_stored(b3, HOST_DATA_OFFSET, data->0, w);
        }
        lemma_word_stored(b4, 0, 1, w);
    }
    if data is Some && HOST_DATA_OFFSET + data->0.len() <= buffer.len() {
        lemma_bytes_stored(b3, HOST_DATA_OFFSET, data->0, 0);
        lemma_word_stored(b4, 0, 1, 0);
        assert(bytes_at(b5, HOST_DATA_OFFSET as int, data->0.len()) =~= bytes_at(
            b4,
            HOST_DATA_OFFSET as int,
            data->0.len(),
        ));
    }
}

/// What a worker reads is what the scheduler answered: data that fits into the
/// buffer comes back byte for byte, under the message type it was sent with.
pub proof fn law_data_response_is_read_back(
    buffer: Seq<u8>,
    session_id: u64,
    msg_type: u32,
    data: Seq<u8>,
)
    requires
        msg_type != MSG_TYPE_EXIT,
        data.len() < 0x8000_0000,
        HOST_DATA_OFFSET + data.len() <= buffer.len(),
    ensures
        ({
            let after = stored_all(buffer, data_response_stores(session_id, msg_type, data));
            &&& word_at(after, 0) == 1
            &&& has_readable_length(after)
            &&& output_at(after) == data_output(msg_type, data)
        }),
{
    let value = words::low_word(data.len() as int);
    lemma_read_response_words(buffer, session_id, msg_type, value, Some(data));
    words::lemma_word_round_trip(0, msg_type);
    assert(value == data.len());
}

/// What a worker reads is what the scheduler answered: an exit code comes back
/// as it was sent.
pub proof fn law_exit_response_is_read_back(buffer: Seq<u8>, session_id: u64, exit_code: i32)
    requires
        buffer.len() >= HOST_DATA_OFFSET,
    ensures
        ({
            let after = stored_all(buffer, exit_response_stores(session_id, exit_code));
            &&& word_at(after, 0) == 1
            &&& has_readable_length(after)
            &&& output_at(after) == OutputView::Exit(exit_code)
        }),
{
    lemma_read_response_words(buffer, session_id, MSG_TYPE_EXIT, exit_code, None);
    words::lemma_word_round_trip(0, MSG_TYPE_EXIT);
}

/// The session check of a read accepts the answer to that session, as long as
/// the session id is a 32-bit word widened with its sign, as every id below
/// 2^31 is.
pub proof fn law_response_names_its_session(
    buffer: Seq<u8>,
    session_id: u64,
    msg_type: u32,
    value: i32,
    data: Option<Seq<u8>>,
)
    requires
        buffer.len() >= HOST_DATA_OFFSET,
        session_id < 0x8000_0000 || session_id >= 0xffff_ffff_8000_0000,
    ensures
        session_at(
            stored_all(buffer, read_response_stores(session_id, msg_type, value, data)),
        ) == session_id,
{
    lemma_read_response_words(buffer, session_id, msg_type, value, data);
}

/// A status that the scheduler answers with is the status that the worker
/// reads, so a poll is answered with readiness and a read that does not wait
/// learns that there is no data.
pub proof fn law_status_response_is_read_back(buffer: Seq<u8>, session_id: u64, status: i32)
    requires
        buffer.len() >= HOST_DATA_OFFSET,
    ensures
        word_at(stored_all(buffer, status_response_stores(session_id, status)), 0) == status,
{
    reveal_with_fuel(stored_all, 4);
    let stores = status_response_stores(session_id, status);
    let b1 = stored(buffer, stores[0]);
    lemma_word_stored(buffer, 3, words::low_word(session_id as int), 0);
    lemma_word_stored(b1, 0, status, 0);
    assert(stores.drop_last().drop_last().drop_last() =~= Seq::empty());
    assert(stores.drop_last().drop_last().last() == stores[0]);
    assert(stores.drop_last().last() == stores[1]);
}

/// What a pipe reader gets is what the scheduler answered: data that fits into
/// the buffer and into the destination is copied byte for byte.
pub proof fn law_pipe_data_is_read_back(buffer: Seq<u8>, data: Seq<u8>, capacity: nat)
    requires
        data.len() < 0x8000_0000,
        PIPE_DATA_OFFSET + data.len() <= buffer.len(),
        data.len() <= capacity,
    ensures
        ({
            let after = stored_all(buffer, pipe_response_stores(Some(data)));
            &&& word_at(after, 0) == 1
            &&& pipe_copied(after, capacity) == data.len()
            &&& bytes_at(after, PIPE_DATA_OFFSET as int, data.len()) == data
        }),
{
    reveal_with_fuel(stored_all, 5);
    let stores = pipe_response_stores(Some(data));
    let b1 = stored(buffer, stores[0]);
    let b2 = stored(b1, stores[1]);
    let b3 = stored(b2, stores[2]);
    assert(stores.drop_last().drop_last().drop_last().drop_last() =~= Seq::empty());
    assert(stores.drop_last().drop_last().drop_last().last() == stores[0]);
    assert(stores.drop_last().drop_last().last() == stores[1]);
    assert(stores.drop_last().last() == stores[2]);
    assert(stored_all(buffer, stores) == b3);
    let len = words::low_word(data.len() as int);
    lemma_word_stored(buffer, 1, len, 1);
    lemma_bytes_stored(b1, PIPE_DATA_OFFSET, data, 1);
    lemma_word_stored(b2, 0, 1, 1);
    lemma_word_stored(b2, 0, 1, 0);
    assert(bytes_at(b3, PIPE_DATA_OFFSET as int, data.len()) =~= bytes_at(
        b2,
        PIPE_DATA_OFFSET as int,
        data.len(),
    ));
}

/// A pipe reader that is told of the end of the file reads it as such.
pub proof fn law_pipe_end_is_read_back(buffer: Seq<u8>)
    requires
        buffer.len() >= PIPE_DATA_OFFSET,
    ensures
        word_at(stored_all(buffer, pipe_response_stores(None)), 0) == 2,
{
    reveal_with_fuel(stored_all, 3);
    let stores = pipe_response_stores(None);
    lemma_word_stored(buffer, 0, 2, 0);
    assert(stores.drop_last().drop_last() =~= Seq::empty());
    assert(stores.drop_last().last() == stores[0]);
}

/// Whether a list of stores writes the status word once, after everything else,
/// and then wakes the worker.
pub open spec fn status_comes_last(stores: Seq<StoreView>) -> bool {
    let n = stores.len() as int;
    &&& n >= 2
    &&& stores[n - 1] == (StoreView::Notify { index: 0 })
    &&& stores[n - 2] is Word && stores[n - 2]->Word_index == 0
    &&& forall|i: int|
        0 <= i < n - 2 ==> match #[trigger] stores[i] {
            StoreView::Word { index, .. } => index != 0,
            StoreView::Bytes { offset, .. } => offset >= 4,
            StoreView::Notify { .. } => false,
        }
}

/// In every answer the status is written last, so that a worker that sees it
/// set finds the whole answer in place, and only then is the worker woken.
pub proof fn law_status_is_written_last(
    session_id: u64,
    msg_type: u32,
    value: i32,
    data: Option<Seq<u8>>,
)
    ensures
        status_comes_last(read_response_stores(session_id, msg_type, value, data)),
        status_comes_last(status_response_stores(session_id, value)),
        status_comes_last(pipe_response_stores(data)),
{
}

} // verus!
