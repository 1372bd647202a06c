//! Answers in a worker's shared buffer are read as they were given.
use vstd::prelude::*;
use crate::laws::numbers;
use crate::response;
use crate::response::{BufferStore, HostExecOutput, ResponseError};
use crate::words;

verus! {

/// The byte of a word at a place, the least significant at place 0.
pub open spec fn byte_of(value: i32, place: int) -> u8 {
    let word = if value >= 0 {
        value as int
    } else {
        value + 0x1_0000_0000
    };
    if place == 0 {
        (word % 0x100) as u8
    } else if place == 1 {
        (word / 0x100 % 0x100) as u8
    } else if place == 2 {
        (word / 0x1_0000 % 0x100) as u8
    } else {
        (word / 0x100_0000 % 0x100) as u8
    }
}

/// A buffer after one store was carried out. What does not fit is not written.
pub open spec fn carried_out(buffer: Seq<u8>, store: BufferStore) -> Seq<u8> {
    Seq::new(
        buffer.len(),
        |i: int|
            match store {
                BufferStore::Word { index, value } => if 4 * index + 4 <= buffer.len() && 4 * index
                    <= i < 4 * index + 4 {
                    byte_of(value, i - 4 * index)
                } else {
                    buffer[i]
                },
                BufferStore::Bytes { offset, data } => if offset <= i < offset + data@.len() {
                    data@[i - offset]
                } else {
                    buffer[i]
                },
                BufferStore::Notify { .. } => buffer[i],
            },
    )
}

/// A buffer after stores were carried out, one after the other.
pub open spec fn all_carried_out(buffer: Seq<u8>, stores: Seq<BufferStore>) -> Seq<u8>
    decreases stores.len(),
{
    if stores.len() == 0 {
        buffer
    } else {
        carried_out(all_carried_out(buffer, stores.drop_last()), stores.last())
    }
}

pub proof fn lemma_all_carried_out(buffer: Seq<u8>, stores: Seq<BufferStore>)
    ensures
        all_carried_out(buffer, stores) == response::stored_all(
            buffer,
            response::stores_view(stores),
        ),
    decreases stores.len(),
{
    let views = response::stores_view(stores);
    if stores.len() > 0 {
        let rest = stores.drop_last();
        lemma_all_carried_out(buffer, rest);
        assert(views.drop_last() =~= response::stores_view(rest));
        assert(views.last() == stores.last()@);
        let before = all_carried_out(buffer, rest);
        assert(carried_out(before, stores.last()) =~= response::stored(before, stores.last()@)) by {
            if let BufferStore::Word { index, value } = stores.last() {
                let bytes = words::le_bytes_i32(value);
                assert(bytes[0] == byte_of(value, 0) && bytes[1] == byte_of(value, 1) && bytes[2]
                    == byte_of(value, 2) && bytes[3] == byte_of(value, 3));
            }
        }
    }
}

/// A word of a buffer has the bits of its four bytes.
pub proof fn lemma_word_at(buffer: Seq<u8>, index: int)
    requires
        0 <= index,
        4 * index + 4 <= buffer.len(),
    ensures
        numbers::same_word(
            numbers::word_of(buffer, 4 * index),
            response::word_at(buffer, index) as int,
        ),
        response::word_at(buffer, index) >= 0 ==> numbers::word_of(buffer, 4 * index)
            == response::word_at(buffer, index),
        words::unsigned_word(response::word_at(buffer, index)) == numbers::word_of(
            buffer,
            4 * index,
        ),
{
    let s = buffer.subrange(4 * index, 4 * index + 4);
    assert(s[0] == buffer[4 * index] && s[1] == buffer[4 * index + 1] && s[2] == buffer[4 * index
        + 2] && s[3] == buffer[4 * index + 3]);
}

/// Whether output is what a message type and data say.
pub open spec fn output_is(output: HostExecOutput, msg_type: u32, data: Seq<u8>) -> bool {
    match output {
        HostExecOutput::Stdout(bytes) => msg_type == 1 && bytes@ == data,
        HostExecOutput::Stderr(bytes) => msg_type == 2 && bytes@ == data,
        HostExecOutput::Exit(_) => false,
        HostExecOutput::Raw { msg_type: given, data: bytes } => msg_type != 1 && msg_type != 2
            && msg_type != 3 && given == msg_type && bytes@ == data,
    }
}

/// Whether stores set the status last and then wake the worker, so that a worker
/// that sees the status finds the whole answer in place.
pub open spec fn status_comes_last(stores: Seq<BufferStore>, status: i32) -> bool {
    let n = stores.len() as int;
    &&& n >= 2
    &&& stores[n - 1] == (BufferStore::Notify { index: 0 })
    &&& stores[n - 2] == (BufferStore::Word { index: 0, value: status })
    &&& forall|i: int|
        0 <= i < n - 2 ==> match #[trigger] stores[i] {
            BufferStore::Word { index, .. } => index > 0,
            BufferStore::Bytes { offset, .. } => offset >= 4,
            BufferStore::Notify { .. } => false,
        }
}

proof fn lemma_status_comes_last(stores: Seq<BufferStore>, status: i32)
    requires
        response::status_comes_last(response::stores_view(stores)),
        response::stores_view(stores)[stores.len() - 2] == (response::StoreView::Word {
            index: 0,
            value: status,
        }),
    ensures
        status_comes_last(stores, status),
{
    let views = response::stores_view(stores);
    let n = stores.len() as int;
    assert(views.len() == n);
    assert(views[n - 1] == stores[n - 1]@ && views[n - 2] == stores[n - 2]@);
    assert forall|i: int| 0 <= i < n - 2 implies match #[trigger] stores[i] {
        BufferStore::Word { index, .. } => index > 0,
        BufferStore::Bytes { offset, .. } => offset >= 4,
        BufferStore::Notify { .. } => false,
    } by {
        assert(views[i] == stores[i]@);
    }
}

/// Data that answers a read stands in the buffer at known places: the status 1,
/// the message type, the number of bytes, the low half of the session's id, and
/// from byte 16 on the data. Whoever reads it gets the data whole, under its
/// type. This leaves out data that does not fit, data under the type of exit codes,
/// which is not read as data, and session ids that do not fit in 31 bits where the
/// session is checked.
pub proof fn law_data_answers_are_read_whole(
    session: u64,
    msg_type: u32,
    data: Vec<u8>,
    stores: Vec<BufferStore>,
    before: Seq<u8>,
    buffer: &[u8],
    readable: bool,
    output: HostExecOutput,
    checked: Result<HostExecOutput, ResponseError>,
    tried: Option<HostExecOutput>,
    nothing: bool,
)
    requires
        call_ensures(response::data_response, (session, msg_type, data), stores),
        buffer@ == all_carried_out(before, stores@),
        data@.len() < 0x8000_0000,
        16 + data@.len() <= before.len(),
        call_ensures(response::is_readable, (buffer,), readable),
        call_ensures(response::load_output, (buffer,), output),
        call_ensures(response::load_read_response, (buffer, session), checked),
        call_ensures(response::load_try_read_response, (buffer,), tried),
        call_ensures(response::has_no_data, (buffer,), nothing),
    ensures
        numbers::word_of(buffer@, 0) == 1,
        numbers::word_of(buffer@, 4) == msg_type,
        numbers::word_of(buffer@, 8) == data@.len(),
        numbers::same_word(numbers::word_of(buffer@, 12), session as int),
        forall|i: int| 0 <= i < data@.len() ==> buffer@[16 + i] == #[trigger] data@[i],
        status_comes_last(stores@, 1),
        readable,
        !nothing,
        msg_type != 3 ==> output_is(output, msg_type, data@),
        msg_type != 3 && session < 0x8000_0000 ==> checked is Ok && output_is(checked->Ok_0, msg_type, data@),
        msg_type != 3 ==> tried is Some && output_is(tried->0, msg_type, data@),
{
    lemma_all_carried_out(before, stores@);
    if msg_type != 3 {
        response::law_data_response_is_read_back(before, session, msg_type, data@);
    }
    let value = words::low_word(data@.len() as int);
    response::lemma_read_response_words(before, session, msg_type, value, Some(data@));
    lemma_word_at(buffer@, 0);
    lemma_word_at(buffer@, 1);
    lemma_word_at(buffer@, 2);
    lemma_word_at(buffer@, 3);
    let read = response::bytes_at(buffer@, 16, data@.len());
    assert(read == data@);
    assert forall|i: int| 0 <= i < data@.len() implies buffer@[16 + i] == #[trigger] data@[i] by {
        assert(read[i] == data@[i]);
    }
    response::law_status_is_written_last(session, msg_type, value, Some(data@));
    lemma_status_comes_last(stores@, 1);
}

/// An exit code that answers a read stands where the number of bytes would, and
/// is read as it was given.
pub proof fn law_exit_answers_are_read(
    session: u64,
    exit_code: i32,
    stores: Vec<BufferStore>,
    before: Seq<u8>,
    buffer: &[u8],
    readable: bool,
    output: HostExecOutput,
    checked: Result<HostExecOutput, ResponseError>,
    tried: Option<HostExecOutput>,
)
    requires
        call_ensures(response::exit_response, (session, exit_code), stores),
        buffer@ == all_carried_out(before, stores@),
        before.len() >= 16,
        call_ensures(response::is_readable, (buffer,), readable),
        call_ensures(response::load_output, (buffer,), output),
        call_ensures(response::load_read_response, (buffer, session), checked),
        call_ensures(response::load_try_read_response, (buffer,), tried),
    ensures
        numbers::word_of(buffer@, 0) == 1,
        numbers::word_of(buffer@, 4) == 3,
        numbers::same_word(numbers::word_of(buffer@, 8), exit_code as int),
        numbers::same_word(numbers::word_of(buffer@, 12), session as int),
        status_comes_last(stores@, 1),
        readable,
        output == HostExecOutput::Exit(exit_code),
        session < 0x8000_0000 ==> checked == Ok::<HostExecOutput, ResponseError>(
            HostExecOutput::Exit(exit_code),
        ),
        tried == Some(HostExecOutput::Exit(exit_code)),
{
    lemma_all_carried_out(before, stores@);
    response::law_exit_response_is_read_back(before, session, exit_code);
    response::lemma_read_response_words(before, session, 3, exit_code, None);
    lemma_word_at(buffer@, 0);
    lemma_word_at(buffer@, 1);
    lemma_word_at(buffer@, 2);
    lemma_word_at(buffer@, 3);
    response::law_status_is_written_last(session, 3, exit_code, None);
    lemma_status_comes_last(stores@, 1);
}

/// A poll is answered with readiness, and a read that does not wait learns that
/// there is no data.
pub proof fn law_status_answers_are_read(
    session: u64,
    is_ready: bool,
    poll_stores: Vec<BufferStore>,
    poll_before: Seq<u8>,
    poll_buffer: &[u8],
    polled: bool,
    stores: Vec<BufferStore>,
    before: Seq<u8>,
    buffer: &[u8],
    nothing: bool,
    tried: Option<HostExecOutput>,
)
    requires
        poll_before.len() >= 16,
        call_ensures(response::poll_response, (session, is_ready), poll_stores),
        poll_buffer@ == all_carried_out(poll_before, poll_stores@),
        call_ensures(response::load_poll_response, (poll_buffer,), polled),
        before.len() >= 16,
        call_ensures(response::no_data_response, (session,), stores),
        buffer@ == all_carried_out(before, stores@),
        call_ensures(response::has_no_data, (buffer,), nothing),
        call_ensures(response::load_try_read_response, (buffer,), tried),
    ensures
        polled == is_ready,
        numbers::word_of(poll_buffer@, 0) == (if is_ready {
            1int
        } else {
            2
        }),
        status_comes_last(
            poll_stores@,
            if is_ready {
                1
            } else {
                2
            },
        ),
        nothing,
        tried is None,
        numbers::word_of(buffer@, 0) == 2,
        status_comes_last(stores@, 2),
{
    let status: i32 = if is_ready {
        1
    } else {
        2
    };
    lemma_all_carried_out(poll_before, poll_stores@);
    lemma_all_carried_out(before, stores@);
    response::law_status_response_is_read_back(poll_before, session, status);
    response::law_status_response_is_read_back(before, session, 2);
    lemma_len(poll_before, poll_stores@);
    lemma_len(before, stores@);
    lemma_word_at(poll_buffer@, 0);
    lemma_word_at(buffer@, 0);
    response::law_status_is_written_last(session, 0, status, None);
    lemma_status_comes_last(poll_stores@, status);
    response::law_status_is_written_last(session, 0, 2, None);
    lemma_status_comes_last(stores@, 2);
}

/// Stores do not change how long a buffer is.
pub proof fn lemma_len(buffer: Seq<u8>, stores: Seq<BufferStore>)
    ensures
        all_carried_out(buffer, stores).len() == buffer.len(),
    decreases stores.len(),
{
    if stores.len() > 0 {
        lemma_len(buffer, stores.drop_last());
    }
}

/// Bytes that answer a pipe read stand in the buffer from byte 64 on, after the
/// status 1 and their number. The reader gets them whole if its own buffer is
/// large enough, and as many as fit if it is not. Its other bytes stay.
pub proof fn law_pipe_answers_are_read(
    data: Vec<u8>,
    stores: Vec<BufferStore>,
    before: Seq<u8>,
    buffer: &[u8],
    destination: &mut [u8],
    read: Option<usize>,
)
    requires
        call_ensures(response::pipe_response, (Some(data),), stores),
        buffer@ == all_carried_out(before, stores@),
        data@.len() < 0x8000_0000,
        64 + data@.len() <= before.len(),
        call_ensures(response::load_pipe_response, (buffer, destination), read),
    ensures
        numbers::word_of(buffer@, 0) == 1,
        numbers::word_of(buffer@, 4) == data@.len(),
        forall|i: int| 0 <= i < data@.len() ==> buffer@[64 + i] == #[trigger] data@[i],
        status_comes_last(stores@, 1),
        read is Some,
        data@.len() <= old(destination)@.len() ==> read->0 == data@.len(),
        data@.len() > old(destination)@.len() ==> read->0 == old(destination)@.len(),
        final(destination)@.len() == old(destination)@.len(),
        forall|i: int|
            0 <= i < old(destination)@.len() ==> #[trigger] final(destination)@[i] == (if i
                < data@.len() {
                data@[i]
            } else {
                old(destination)@[i]
            }),
{
    lemma_all_carried_out(before, stores@);
    lemma_len(before, stores@);
    response::law_pipe_data_is_read_back(before, data@, data@.len());
    lemma_word_at(buffer@, 0);
    lemma_word_at(buffer@, 1);
    let there = response::bytes_at(buffer@, 64, data@.len());
    assert forall|i: int| 0 <= i < data@.len() implies buffer@[64 + i] == #[trigger] data@[i] by {
        assert(there[i] == data@[i]);
    }
    lemma_pipe_words(before, data@);
    response::law_status_is_written_last(0, 0, 0, Some(data@));
    lemma_status_comes_last(stores@, 1);
}

proof fn lemma_pipe_words(before: Seq<u8>, data: Seq<u8>)
    requires
        data.len() < 0x8000_0000,
        64 + data.len() <= before.len(),
    ensures
        response::word_at(
            response::stored_all(before, response::pipe_response_stores(Some(data))),
            1,
        ) == data.len(),
{
    reveal_with_fuel(response::stored_all, 5);
    let stores = response::pipe_response_stores(Some(data));
    let b1 = response::stored(before, stores[0]);
    let b2 = response::stored(b1, stores[1]);
    assert(stores.drop_last().drop_last().drop_last().drop_last() =~= Seq::empty());
    assert(stores.drop_last().drop_last().drop_last().last() == stores[0]);
    assert(stores.drop_last().drop_last().last() == stores[1]);
    assert(stores.drop_last().last() == stores[2]);
    let len = words::low_word(data.len() as int);
    response::lemma_word_stored(before, 1, len, 1);
    response::lemma_bytes_stored(b1, 64, data, 1);
    response::lemma_word_stored(b2, 0, 1, 1);
}

/// The end of a file is read as no bytes, and the reader's buffer stays as it is.
pub proof fn law_pipe_ends_are_read(
    stores: Vec<BufferStore>,
    before: Seq<u8>,
    buffer: &[u8],
    destination: &mut [u8],
    read: Option<usize>,
)
    requires
        call_ensures(response::pipe_response, (None,), stores),
        buffer@ == all_carried_out(before, stores@),
        before.len() >= 64,
        call_ensures(response::load_pipe_response, (buffer, destination), read),
    ensures
        numbers::word_of(buffer@, 0) == 2,
        status_comes_last(stores@, 2),
        read == Some(0usize),
        final(destination)@ == old(destination)@,
{
    lemma_all_carried_out(before, stores@);
    lemma_len(before, stores@);
    response::law_pipe_end_is_read_back(before);
    lemma_word_at(buffer@, 0);
    response::law_status_is_written_last(0, 0, 0, None);
    lemma_status_comes_last(stores@, 2);
}

/// Whatever stands in a buffer, the answer to a pipe read is read from its known
/// places: where the status is 1, as many bytes as are named and fit, from byte 64
/// on; none where it is 2; and nothing at all where it is something else. Bytes
/// that lie beyond the buffer count as 0.
pub proof fn law_pipe_answers_are_read_from_their_places(
    buffer: &[u8],
    destination: &mut [u8],
    read: Option<usize>,
)
    requires
        buffer@.len() >= 8,
        call_ensures(response::load_pipe_response, (buffer, destination), read),
    ensures
        numbers::word_of(buffer@, 0) == 1 ==> {
            &&& read is Some
            &&& read->0 == (if numbers::word_of(buffer@, 4) <= old(destination)@.len()
                && numbers::word_of(buffer@, 4) < 0x8000_0000 {
                numbers::word_of(buffer@, 4)
            } else {
                old(destination)@.len() as int
            })
            &&& final(destination)@.len() == old(destination)@.len()
            &&& forall|i: int|
                0 <= i < old(destination)@.len() ==> #[trigger] final(destination)@[i] == (if i
                    >= read->0 {
                    old(destination)@[i]
                } else if 64 + i < buffer@.len() {
                    buffer@[64 + i]
                } else {
                    0
                })
        },
        numbers::word_of(buffer@, 0) == 2 ==> read == Some(0usize) && final(destination)@ == old(
            destination,
        )@,
        numbers::word_of(buffer@, 0) != 1 && numbers::word_of(buffer@, 0) != 2 ==> read is None
            && final(destination)@ == old(destination)@,
{
    lemma_word_at(buffer@, 0);
    lemma_word_at(buffer@, 1);
}

/// Whatever stands in a buffer, output is read from its known places: message
/// type 3 stands for an exit code, any other type for as many bytes as are named,
/// from byte 16 on.
pub proof fn law_output_is_read_from_its_places(
    buffer: &[u8],
    session: u64,
    readable: bool,
    answers: bool,
    output: HostExecOutput,
    checked: Result<HostExecOutput, ResponseError>,
    tried: Option<HostExecOutput>,
    polled: bool,
)
    requires
        buffer@.len() >= 16,
        call_ensures(response::is_readable, (buffer,), readable),
        readable,
        call_ensures(response::answers_session, (buffer, session), answers),
        call_ensures(response::load_output, (buffer,), output),
        call_ensures(response::load_read_response, (buffer, session), checked),
        call_ensures(response::load_try_read_response, (buffer,), tried),
        call_ensures(response::load_poll_response, (buffer,), polled),
    ensures
        numbers::word_of(buffer@, 4) == 3 <==> output is Exit,
        output matches HostExecOutput::Exit(code) ==> numbers::same_word(
            numbers::word_of(buffer@, 8),
            code as int,
        ),
        numbers::word_of(buffer@, 4) != 3 ==> {
            let n = numbers::word_of(buffer@, 8);
            let data = Seq::new(
                n as nat,
                |i: int|
                    if 16 + i < buffer@.len() {
                        buffer@[16 + i]
                    } else {
                        0u8
                    },
            );
            output_is(output, numbers::word_of(buffer@, 4) as u32, data)
        },
        answers <==> session == session_named(buffer@),
        session < 0x8000_0000 ==> (answers <==> numbers::word_of(buffer@, 12) == session),
        checked is Ok <==> answers,
        checked is Ok ==> same_output(checked->Ok_0, output),
        checked matches Err(ResponseError::SessionMismatch { expected, got }) ==> expected
            == session && got == session_named(buffer@),
        tried is None <==> numbers::word_of(buffer@, 0) == 2,
        tried is Some ==> same_output(tried->0, output),
        polled <==> numbers::word_of(buffer@, 0) == 1,
{
    lemma_word_at(buffer@, 0);
    lemma_word_at(buffer@, 1);
    lemma_word_at(buffer@, 2);
    lemma_word_at(buffer@, 3);
    if numbers::word_of(buffer@, 4) != 3 {
        let n = numbers::word_of(buffer@, 8);
        let data = Seq::new(
            n as nat,
            |i: int|
                if 16 + i < buffer@.len() {
                    buffer@[16 + i]
                } else {
                    0u8
                },
        );
        assert(data =~= response::bytes_at(buffer@, 16, n as nat));
    }
}

/// The session that an answer in a buffer is for: 32 bits of its id are there, and
/// they are widened with their sign.
pub open spec fn session_named(buffer: Seq<u8>) -> int {
    let word = numbers::word_of(buffer, 12);
    if word < 0x8000_0000 {
        word
    } else {
        word + 0xffff_ffff_0000_0000
    }
}

/// An answer can be read if it is an exit code or names a number of bytes that is
/// not negative.
pub proof fn law_answers_are_readable_by_their_length(buffer: &[u8], readable: bool)
    requires
        buffer@.len() >= 16,
        call_ensures(response::is_readable, (buffer,), readable),
    ensures
        readable <==> numbers::word_of(buffer@, 4) == 3 || numbers::word_of(buffer@, 8)
            < 0x8000_0000,
{
    lemma_word_at(buffer@, 1);
    lemma_word_at(buffer@, 2);
}

/// Whether two outputs are the same.
pub open spec fn same_output(a: HostExecOutput, b: HostExecOutput) -> bool {
    match (a, b) {
        (HostExecOutput::Stdout(x), HostExecOutput::Stdout(y)) => x@ == y@,
        (HostExecOutput::Stderr(x), HostExecOutput::Stderr(y)) => x@ == y@,
        (HostExecOutput::Exit(x), HostExecOutput::Exit(y)) => x == y,
        (
            HostExecOutput::Raw { msg_type: m, data: x },
            HostExecOutput::Raw { msg_type: n, data: y },
        ) => m == n && x@ == y@,
        _ => false,
    }
}

} // verus!
