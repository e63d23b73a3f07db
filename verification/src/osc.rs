//! The OSC 11 exchange: what is sent to the terminal, when its answer is
//! complete, and what the answer says.
//!
//! The question is the sequence `ESC ] 11 ; ? BEL`. The terminal answers
//! `ESC ] 11 ; <colour>` and ends the answer with `BEL` or with `ESC \`.

use crate::text::{chars_of, skip_spaces, spaces_end};
use vstd::prelude::*;
use vstd::string::StrSliceExecFns;
use vstd::utf8::{decode_utf8, encode_utf8, encode_utf8_decode_utf8, valid_utf8};

verus! {

/// The byte `BEL`, which ends an answer.
pub const BEL: u8 = 0x07;

/// The byte `ESC`, which begins an answer and, with a backslash behind it,
/// ends one.
pub const ESC: u8 = 0x1b;

/// How long the answer is waited for, in milliseconds from the moment the
/// question was sent.
pub const DEADLINE_MS: u64 = 2000;

/// How long a single wait for the terminal lasts at most, in milliseconds.
pub const POLL_MS: u64 = 250;

/// How many bytes are read at once at most.
pub const CHUNK_LEN: usize = 64;

/// Why the bytes of an answer tell no colour.
#[derive(Debug, Clone, Copy, PartialEq, Eq, Structural)]
pub enum DecodeError {
    /// The bytes are not well-formed UTF-8.
    InvalidText,
    /// The text holds no `]11;` with a colour behind it.
    NoColor,
}

/// Why a query brought no colour.
#[derive(Debug, Clone, Copy, PartialEq, Eq, Structural)]
pub enum QueryError {
    /// The terminal device could not be opened: there is no controlling
    /// terminal.
    NoTerminal,
    /// The line discipline could not be read or changed.
    RawMode,
    /// The flags of the descriptor could not be read or changed.
    NonBlocking,
    /// The question could not be written.
    Write,
    /// Waiting for the answer or reading it failed.
    Read,
    /// The answer tells no colour.
    Decode(DecodeError),
}

/// What is to be done to the terminal next.
#[derive(Debug, Clone, Copy, PartialEq, Eq, Structural)]
pub enum Action {
    /// Open the terminal device for reading and writing.
    Open,
    /// Keep the line discipline as it is, then switch off line-wise input
    /// and echo.
    EnterRawMode,
    /// Keep the flags of the descriptor as they are, then make reads return
    /// at once.
    EnterNonBlocking,
    /// Write the question, and start the clock.
    SendQuery,
    /// Wait until the terminal can be read, at most this long.
    Poll {
        /// The longest wait, in milliseconds.
        timeout_ms: u64,
    },
    /// Read what the terminal has, at most this many bytes.
    Read {
        /// The most bytes to read.
        max_len: usize,
    },
    /// Put the line discipline back as it was kept.
    RestoreLineDiscipline,
    /// Put the flags of the descriptor back as they were kept.
    RestoreBlockingFlags,
    /// Nothing: the query has ended, and its state holds the reply.
    Finish,
}

/// What came of the last action.
#[derive(Debug, PartialEq, Eq)]
pub enum Event {
    /// It succeeded.
    Done,
    /// It failed.
    Failed,
    /// The wait ended and the terminal has nothing to read.
    Idle {
        /// Milliseconds since the question was sent.
        elapsed_ms: u64,
    },
    /// The terminal can be read.
    Readable,
    /// These bytes were read; none means that the terminal has closed.
    Chunk {
        /// The bytes, in the order read.
        bytes: Vec<u8>,
        /// Milliseconds since the question was sent.
        elapsed_ms: u64,
    },
    /// The read found nothing and would have had to wait.
    WouldBlock {
        /// Milliseconds since the question was sent.
        elapsed_ms: u64,
    },
}

/// How far a query has come.
#[derive(Debug, PartialEq, Eq)]
pub enum Query {
    /// Nothing has been done yet.
    Start,
    /// The terminal device is being opened.
    Opening,
    /// The line discipline is being changed.
    EnteringRawMode,
    /// The flags of the descriptor are being changed.
    EnteringNonBlocking,
    /// The question is being written.
    Sending,
    /// The terminal is being waited for.
    Polling {
        /// The bytes of the answer so far.
        buf: Vec<u8>,
    },
    /// The terminal is being read.
    Reading {
        /// The bytes of the answer so far.
        buf: Vec<u8>,
    },
    /// The line discipline is being put back.
    RestoringLine {
        /// What the query will report.
        reply: Result<String, QueryError>,
        /// Whether the flags of the descriptor are to be put back too.
        nonblocking: bool,
    },
    /// The flags of the descriptor are being put back.
    RestoringFlags {
        /// What the query will report.
        reply: Result<String, QueryError>,
        /// Whether the line discipline was put back.
        line_restored: bool,
    },
    /// The query has ended.
    Closed {
        /// What the query reports: the colour as the terminal wrote it, or
        /// the first thing that went wrong.
        reply: Result<String, QueryError>,
        /// Whether the terminal is as it was found: nothing had to be put
        /// back, or all of it was.
        restored: bool,
    },
}

/// A query as contracts speak of it: its buffer as a sequence of bytes, its
/// reply as a sequence of characters.
pub ghost enum QueryModel {
    Start,
    Opening,
    EnteringRawMode,
    EnteringNonBlocking,
    Sending,
    Polling { buf: Seq<u8> },
    Reading { buf: Seq<u8> },
    RestoringLine { reply: Result<Seq<char>, QueryError>, nonblocking: bool },
    RestoringFlags { reply: Result<Seq<char>, QueryError>, line_restored: bool },
    Closed { reply: Result<Seq<char>, QueryError>, restored: bool },
}

/// A reply as contracts speak of it.
pub open spec fn reply_view(reply: Result<String, QueryError>) -> Result<Seq<char>, QueryError> {
    match reply {
        Ok(color) => Ok(color@),
        Err(e) => Err(e),
    }
}

impl View for Query {
    type V = QueryModel;

    open spec fn view(&self) -> QueryModel {
        match *self {
            Query::Start => QueryModel::Start,
            Query::Opening => QueryModel::Opening,
            Query::EnteringRawMode => QueryModel::EnteringRawMode,
            Query::EnteringNonBlocking => QueryModel::EnteringNonBlocking,
            Query::Sending => QueryModel::Sending,
            Query::Polling { buf } => QueryModel::Polling { buf: buf@ },
            Query::Reading { buf } => QueryModel::Reading { buf: buf@ },
            Query::RestoringLine { reply, nonblocking } => QueryModel::RestoringLine {
                reply: reply_view(reply),
                nonblocking,
            },
            Query::RestoringFlags { reply, line_restored } => QueryModel::RestoringFlags {
                reply: reply_view(reply),
                line_restored,
            },
            Query::Closed { reply, restored } => QueryModel::Closed {
                reply: reply_view(reply),
                restored,
            },
        }
    }
}

/// What a query reports when reading has ended with `buf`.
pub open spec fn reply_of(buf: Seq<u8>) -> Result<Seq<char>, QueryError> {
    match decoded(buf) {
        Ok(color) => Ok(color),
        Err(e) => Err(QueryError::Decode(e)),
    }
}

/// The step that ends the use of a terminal whose modes were both changed:
/// the reply is kept, and the line discipline is put back first.
pub open spec fn restore(reply: Result<Seq<char>, QueryError>) -> (QueryModel, Action) {
    (QueryModel::RestoringLine { reply, nonblocking: true }, Action::RestoreLineDiscipline)
}

/// The step behind a look at the terminal that brought no end of the
/// answer: once the deadline has passed, reading ends with what there is;
/// before it, the terminal is waited for again, no longer than the deadline
/// allows.
pub open spec fn wait_or_stop(buf: Seq<u8>, elapsed_ms: u64) -> (QueryModel, Action) {
    if elapsed_ms >= DEADLINE_MS {
        restore(reply_of(buf))
    } else {
        (
            QueryModel::Polling { buf },
            Action::Poll {
                timeout_ms: if DEADLINE_MS - elapsed_ms < POLL_MS {
                    (DEADLINE_MS - elapsed_ms) as u64
                } else {
                    POLL_MS
                },
            },
        )
    }
}

/// The step of a query: the state that follows `query` when `event` has
/// come of its last action, and the action to take next.
pub open spec fn next(query: QueryModel, event: Event) -> (QueryModel, Action) {
    match query {
        QueryModel::Start => (QueryModel::Opening, Action::Open),
        QueryModel::Opening => if event is Done {
            (QueryModel::EnteringRawMode, Action::EnterRawMode)
        } else {
            (
                QueryModel::Closed { reply: Err(QueryError::NoTerminal), restored: true },
                Action::Finish,
            )
        },
        QueryModel::EnteringRawMode => if event is Done {
            (QueryModel::EnteringNonBlocking, Action::EnterNonBlocking)
        } else {
            (QueryModel::Closed { reply: Err(QueryError::RawMode), restored: true }, Action::Finish)
        },
        QueryModel::EnteringNonBlocking => if event is Done {
            (QueryModel::Sending, Action::SendQuery)
        } else {
            (
                QueryModel::RestoringLine {
                    reply: Err(QueryError::NonBlocking),
                    nonblocking: false,
                },
                Action::RestoreLineDiscipline,
            )
        },
        QueryModel::Sending => if event is Done {
            (QueryModel::Polling { buf: Seq::empty() }, Action::Poll { timeout_ms: POLL_MS })
        } else {
            restore(Err(QueryError::Write))
        },
        QueryModel::Polling { buf } => match event {
            Event::Readable => (QueryModel::Reading { buf }, Action::Read { max_len: CHUNK_LEN }),
            Event::Idle { elapsed_ms } => wait_or_stop(buf, elapsed_ms),
            _ => restore(Err(QueryError::Read)),
        },
        QueryModel::Reading { buf } => match event {
            Event::Chunk { bytes, elapsed_ms } => if bytes@.len() == 0 {
                restore(reply_of(buf))
            } else if is_terminated(buf + bytes@) {
                restore(reply_of(buf + bytes@))
            } else {
                wait_or_stop(buf + bytes@, elapsed_ms)
            },
            Event::WouldBlock { elapsed_ms } => wait_or_stop(buf, elapsed_ms),
            _ => restore(Err(QueryError::Read)),
        },
        QueryModel::RestoringLine { reply, nonblocking } => if nonblocking {
            (
                QueryModel::RestoringFlags { reply, line_restored: event is Done },
                Action::RestoreBlockingFlags,
            )
        } else {
            (QueryModel::Closed { reply, restored: event is Done }, Action::Finish)
        },
        QueryModel::RestoringFlags { reply, line_restored } => (
            QueryModel::Closed { reply, restored: line_restored && event is Done },
            Action::Finish,
        ),
        QueryModel::Closed { reply, restored } => (query, Action::Finish),
    }
}

/// The question that asks the terminal for its background colour.
pub open spec fn query_bytes() -> Seq<u8> {
    seq![0x1bu8, 0x5du8, 0x31u8, 0x31u8, 0x3bu8, 0x3fu8, 0x07u8]
}

/// Whether `buf` holds the end of an answer: a `BEL` anywhere, or an `ESC`
/// with a backslash behind it anywhere.
pub open spec fn is_terminated(buf: Seq<u8>) -> bool {
    ||| exists|i: int| 0 <= i < buf.len() && buf[i] == BEL
    ||| exists|i: int| 0 <= i < buf.len() - 1 && buf[i] == ESC && #[trigger] buf[i + 1] == 0x5c
}

/// Whether `c` ends the colour in an answer: `BEL` or `ESC`.
pub open spec fn ends_color(c: char) -> bool {
    c == '\x07' || c == '\x1b'
}

/// Where the colour begins if the head of an answer stands at `at`: a `]`,
/// then white space or none, then `11;`.
pub open spec fn head_end(text: Seq<char>, at: int) -> Option<int> {
    let number = spaces_end(text, at + 1);
    if 0 <= at < text.len() && text[at] == ']' && number + 3 <= text.len() && text[number] == '1'
        && text[number + 1] == '1' && text[number + 2] == ';' {
        Some(number + 3)
    } else {
        None
    }
}

/// Where the colour begins behind the first head of an answer that stands
/// at or after `from`.
pub open spec fn first_head_end(text: Seq<char>, from: int) -> Option<int>
    decreases text.len() - from,
{
    if from < 0 || from >= text.len() {
        None
    } else if head_end(text, from) is Some {
        head_end(text, from)
    } else {
        first_head_end(text, from + 1)
    }
}

/// Where the colour that begins at `from` ends: before the first `BEL` or
/// `ESC`, or at the end of the text.
pub open spec fn color_end(text: Seq<char>, from: int) -> int
    decreases text.len() - from,
{
    if 0 <= from < text.len() && !ends_color(text[from]) {
        color_end(text, from + 1)
    } else {
        from
    }
}

/// The colour that an answer tells: what stands between the first head and
/// the `BEL` or `ESC` that follows it. Where neither follows, the colour
/// runs to the end of the text: an answer that was cut off behind its head
/// tells what there is of the colour, and whether that is a colour is for
/// the reader of colours to say.
pub open spec fn color_spec(text: Seq<char>) -> Option<Seq<char>> {
    match first_head_end(text, 0) {
        Some(start) => Some(text.subrange(start, color_end(text, start))),
        None => None,
    }
}

/// The colour that the bytes of an answer tell.
pub open spec fn decoded(buf: Seq<u8>) -> Result<Seq<char>, DecodeError> {
    if !valid_utf8(buf) {
        Err(DecodeError::InvalidText)
    } else {
        match color_spec(decode_utf8(buf)) {
            Some(color) => Ok(color),
            None => Err(DecodeError::NoColor),
        }
    }
}

/// The reply that a query holds, once it holds one.
pub open spec fn reply_held(query: QueryModel) -> Option<Result<Seq<char>, QueryError>> {
    match query {
        QueryModel::RestoringLine { reply, .. } => Some(reply),
        QueryModel::RestoringFlags { reply, .. } => Some(reply),
        QueryModel::Closed { reply, .. } => Some(reply),
        _ => None,
    }
}

/// Whether the line discipline has been changed and is still to be put
/// back.
pub open spec fn owes_line(query: QueryModel) -> bool {
    query is EnteringNonBlocking || query is Sending || query is Polling || query is Reading
}

/// Whether the flags of the descriptor have been changed and are still to
/// be put back.
pub open spec fn owes_flags(query: QueryModel) -> bool {
    ||| query is Sending
    ||| query is Polling
    ||| query is Reading
    ||| query matches QueryModel::RestoringLine { nonblocking, .. } && nonblocking
}

/// The time that an event tells, if it tells one.
pub open spec fn elapsed_of(event: Event) -> Option<u64> {
    match event {
        Event::Idle { elapsed_ms } => Some(elapsed_ms),
        Event::Chunk { elapsed_ms, .. } => Some(elapsed_ms),
        Event::WouldBlock { elapsed_ms } => Some(elapsed_ms),
        _ => None,
    }
}

/// The most steps that a query takes to its end once the deadline has
/// passed.
pub open spec fn steps_left(query: QueryModel) -> nat {
    match query {
        QueryModel::Start => 9,
        QueryModel::Opening => 8,
        QueryModel::EnteringRawMode => 7,
        QueryModel::EnteringNonBlocking => 6,
        QueryModel::Sending => 5,
        QueryModel::Polling { .. } => 4,
        QueryModel::Reading { .. } => 3,
        QueryModel::RestoringLine { .. } => 2,
        QueryModel::RestoringFlags { .. } => 1,
        QueryModel::Closed { .. } => 0,
    }
}

/// Each mode that a query changes is put back once, on every way to the
/// end.
///
/// A mode comes to be owed by the step that follows its change, and by no
/// other. It ceases to be owed by the step that asks for it to be put back,
/// and by no other. A query that has finished owes nothing.
pub proof fn lemma_modes_are_put_back_once(query: QueryModel, event: Event)
    ensures
        ({
            let (after, action) = next(query, event);
            &&& owes_line(after) && !owes_line(query) <==> query is EnteringRawMode
                && event is Done
            &&& owes_flags(after) && !owes_flags(query) <==> query is EnteringNonBlocking
                && event is Done
            &&& action == Action::RestoreLineDiscipline <==> owes_line(query) && !owes_line(after)
            &&& action == Action::RestoreBlockingFlags <==> owes_flags(query) && !owes_flags(after)
            &&& action == Action::Finish <==> after is Closed
            &&& after is Closed ==> !owes_line(after) && !owes_flags(after)
        }),
{
}

/// The state that a query is in when it has taken a step for each of
/// `events`, in turn.
pub open spec fn run(query: QueryModel, events: Seq<Event>) -> QueryModel
    decreases events.len(),
{
    if events.len() == 0 {
        query
    } else {
        run(next(query, events[0]).0, events.drop_first())
    }
}

/// How often a query asks for `action` while it takes a step for each of
/// `events`, in turn.
pub open spec fn times_asked(query: QueryModel, events: Seq<Event>, action: Action) -> nat
    decreases events.len(),
{
    if events.len() == 0 {
        0
    } else {
        let (after, asked) = next(query, events[0]);
        times_asked(after, events.drop_first(), action) + if asked == action {
            1nat
        } else {
            0nat
        }
    }
}

/// One if `owed`, else nothing.
pub open spec fn debt(owed: bool) -> nat {
    if owed {
        1
    } else {
        0
    }
}

/// How far a query has come; no step takes it back.
pub open spec fn stage(query: QueryModel) -> nat {
    match query {
        QueryModel::Start => 0,
        QueryModel::Opening => 1,
        QueryModel::EnteringRawMode => 2,
        QueryModel::EnteringNonBlocking => 3,
        QueryModel::Sending => 4,
        QueryModel::Polling { .. } => 5,
        QueryModel::Reading { .. } => 5,
        QueryModel::RestoringLine { .. } => 6,
        QueryModel::RestoringFlags { .. } => 7,
        QueryModel::Closed { .. } => 8,
    }
}

/// From any state and whatever happens, what a query owes at the end and
/// what it has put back make up what it owed at the start and what it has
/// changed since; and it changes a mode at most once, and not again once
/// it has come past the change.
proof fn lemma_run_accounts_for_modes(query: QueryModel, events: Seq<Event>)
    ensures
        times_asked(query, events, Action::RestoreLineDiscipline) + debt(
            owes_line(run(query, events)),
        ) == times_asked(query, events, Action::EnterNonBlocking) + debt(owes_line(query)),
        times_asked(query, events, Action::RestoreBlockingFlags) + debt(
            owes_flags(run(query, events)),
        ) == times_asked(query, events, Action::SendQuery) + debt(owes_flags(query)),
        times_asked(query, events, Action::EnterNonBlocking) <= debt(stage(query) <= 2),
        times_asked(query, events, Action::SendQuery) <= debt(stage(query) <= 3),
    decreases events.len(),
{
    if events.len() > 0 {
        lemma_run_accounts_for_modes(next(query, events[0]).0, events.drop_first());
    }
}

/// Whatever happens to a query from its start, each mode is put back once
/// if it was changed, and never if it was not.
///
/// The request to change the second mode is made just when the first was
/// changed, and the question is sent just when the second was. So the
/// line discipline has been put back as often as the second change was
/// asked for, less what is still owed, and the flags as often as the
/// question was sent, less what is still owed; each at most once. A query
/// that has finished owes nothing.
pub proof fn lemma_every_run_puts_modes_back_once(events: Seq<Event>)
    ensures
        ({
            let end = run(QueryModel::Start, events);
            let changed_line = times_asked(QueryModel::Start, events, Action::EnterNonBlocking);
            let changed_flags = times_asked(QueryModel::Start, events, Action::SendQuery);
            let restored_line = times_asked(
                QueryModel::Start,
                events,
                Action::RestoreLineDiscipline,
            );
            let restored_flags = times_asked(
                QueryModel::Start,
                events,
                Action::RestoreBlockingFlags,
            );
            &&& changed_line <= 1 && changed_flags <= 1
            &&& restored_line + debt(owes_line(end)) == changed_line
            &&& restored_flags + debt(owes_flags(end)) == changed_flags
            &&& end is Closed ==> restored_line == changed_line && restored_flags == changed_flags
        }),
{
    lemma_run_accounts_for_modes(QueryModel::Start, events);
}

/// Nothing is written to the terminal, waited for or read unless both
/// modes have been changed and neither has been put back.
pub proof fn lemma_terminal_is_used_in_both_modes_only(query: QueryModel, event: Event)
    ensures
        ({
            let (after, action) = next(query, event);
            action == Action::SendQuery || action is Poll || action is Read ==> owes_line(after)
                && owes_flags(after)
        }),
{
}

/// No wait is longer than the deadline allows, and none is asked for once
/// the deadline has passed.
pub proof fn lemma_waits_keep_the_deadline(query: QueryModel, event: Event)
    ensures
        next(query, event).1 matches Action::Poll { timeout_ms } ==> {
            &&& 0 < timeout_ms <= POLL_MS
            &&& elapsed_of(event) matches Some(elapsed_ms) ==> elapsed_ms + timeout_ms
                <= DEADLINE_MS
        },
{
}

/// Once the deadline has passed, every step brings a query nearer to its
/// end, which is at most nine steps away.
pub proof fn lemma_deadline_ends_the_query(query: QueryModel, event: Event)
    requires
        elapsed_of(event) matches Some(elapsed_ms) ==> elapsed_ms >= DEADLINE_MS,
    ensures
        query is Closed || steps_left(next(query, event).0) < steps_left(query),
        steps_left(query) <= 9,
        steps_left(query) == 0 <==> query is Closed,
{
}

/// Reading ends with the first chunk that completes the answer, and the
/// reply is then what the bytes so far tell.
pub proof fn lemma_reading_ends_with_the_answer(buf: Seq<u8>, bytes: Vec<u8>, elapsed_ms: u64)
    requires
        bytes@.len() > 0,
        is_terminated(buf + bytes@),
    ensures
        next(QueryModel::Reading { buf }, Event::Chunk { bytes, elapsed_ms }) == (
            QueryModel::RestoringLine { reply: reply_of(buf + bytes@), nonblocking: true },
            Action::RestoreLineDiscipline,
        ),
{
}

/// A failure to put a mode back leaves the reply as it is.
pub proof fn lemma_reply_outlasts_restoration(query: QueryModel, event: Event)
    ensures
        query matches QueryModel::RestoringLine { reply, .. } ==> reply_held(next(query, event).0)
            == Some(reply),
        query matches QueryModel::RestoringFlags { reply, .. } ==> reply_held(
            next(query, event).0,
        ) == Some(reply),
        query matches QueryModel::Closed { reply, .. } ==> reply_held(next(query, event).0)
            == Some(reply),
{
}

/// The colour lies inside the text and holds neither `BEL` nor `ESC`; one
/// of the two follows it unless the text ends.
pub proof fn lemma_color_end(text: Seq<char>, from: int)
    requires
        0 <= from <= text.len(),
    ensures
        from <= color_end(text, from) <= text.len(),
        forall|i: int| from <= i < color_end(text, from) ==> !ends_color(#[trigger] text[i]),
        color_end(text, from) < text.len() ==> ends_color(text[color_end(text, from)]),
    decreases text.len() - from,
{
    if from < text.len() && !ends_color(text[from]) {
        lemma_color_end(text, from + 1);
    }
}

/// A stretch without `BEL` and `ESC` that one of them follows, or the end
/// of the text, is the colour.
pub proof fn lemma_color_end_is(text: Seq<char>, from: int, end: int)
    requires
        0 <= from <= end <= text.len(),
        forall|i: int| from <= i < end ==> !ends_color(#[trigger] text[i]),
        end < text.len() ==> ends_color(text[end]),
    ensures
        color_end(text, from) == end,
    decreases end - from,
{
    if from < end {
        lemma_color_end_is(text, from + 1, end);
    }
}

/// The first head is a head, and none stands before it.
pub proof fn lemma_first_head_end(text: Seq<char>, from: int)
    requires
        0 <= from,
    ensures
        match first_head_end(text, from) {
            Some(start) => exists|at: int|
                from <= at < text.len() && #[trigger] head_end(text, at) == Some(start) && forall|
                    k: int,
                |
                    from <= k < at ==> #[trigger] head_end(text, k) is None,
            None => forall|k: int| from <= k ==> #[trigger] head_end(text, k) is None,
        },
    decreases text.len() - from,
{
    if from < text.len() {
        if head_end(text, from) is Some {
            assert(head_end(text, from) == first_head_end(text, from));
        } else {
            lemma_first_head_end(text, from + 1);
            match first_head_end(text, from + 1) {
                Some(start) => {
                    let at = choose|at: int|
                        from + 1 <= at < text.len() && #[trigger] head_end(text, at) == Some(start)
                            && forall|k: int|
                            from + 1 <= k < at ==> #[trigger] head_end(text, k) is None;
                    assert forall|k: int| from <= k < at implies #[trigger] head_end(
                        text,
                        k,
                    ) is None by {
                        if k > from {
                        }
                    }
                },
                None => {
                    assert forall|k: int| from <= k implies #[trigger] head_end(text, k) is None by {
                        if k > from {
                        }
                    }
                },
            }
        }
    }
}

/// A head before which no head stands is the first one.
pub proof fn lemma_first_head_end_is(text: Seq<char>, from: int, at: int)
    requires
        0 <= from <= at < text.len(),
        head_end(text, at) is Some,
        forall|k: int| from <= k < at ==> #[trigger] head_end(text, k) is None,
    ensures
        first_head_end(text, from) == head_end(text, at),
    decreases at - from,
{
    if from < at {
        lemma_first_head_end_is(text, from + 1, at);
    }
}

/// The question that asks the terminal for its background colour:
/// `ESC ] 11 ; ? BEL`.
pub fn osc_query() -> (query: Vec<u8>)
    ensures
        query@ == query_bytes(),
{
    vec![0x1bu8, 0x5du8, 0x31u8, 0x31u8, 0x3bu8, 0x3fu8, 0x07u8]
}

/// Whether `buf` holds the end of an answer. The whole of `buf` is looked
/// at, so an end that came in two pieces is found too.
pub fn has_terminator(buf: &Vec<u8>) -> (found: bool)
    ensures
        found == is_terminated(buf@),
{
    let mut i: usize = 0;
    while i < buf.len()
        invariant
            i <= buf.len(),
            forall|k: int| 0 <= k < i ==> buf[k] != BEL,
            forall|k: int| 0 <= k < i && k < buf.len() - 1 ==> !(buf[k] == ESC && #[trigger] buf[k + 1]
                == 0x5c),
        decreases buf.len() - i,
    {
        if buf[i] == BEL {
            return true;
        }
        if buf[i] == ESC && i + 1 < buf.len() && buf[i + 1] == 0x5c {
            return true;
        }
        i += 1;
    }
    false
}

/// Where the colour that begins at `from` ends in `chars`.
fn find_color_end(chars: &Vec<char>, from: usize) -> (end: usize)
    requires
        from <= chars.len(),
    ensures
        end == color_end(chars@, from as int),
        from <= end <= chars.len(),
{
    let mut i: usize = from;
    while i < chars.len() && chars[i] != '\x07' && chars[i] != '\x1b'
        invariant
            from <= i <= chars.len(),
            color_end(chars@, from as int) == color_end(chars@, i as int),
        decreases chars.len() - i,
    {
        i += 1;
    }
    i
}

/// Where the colour begins, if the head of an answer stands at `at`.
fn find_head_end(chars: &Vec<char>, at: usize) -> (start: Option<usize>)
    requires
        at < chars.len(),
    ensures
        match start {
            Some(start) => head_end(chars@, at as int) == Some(start as int) && start
                <= chars.len(),
            None => head_end(chars@, at as int) is None,
        },
{
    if chars[at] != ']' {
        return None;
    }
    let number = skip_spaces(chars, at + 1);
    if chars.len() - number >= 3 && chars[number] == '1' && chars[number + 1] == '1' && chars[number
        + 2] == ';' {
        Some(number + 3)
    } else {
        None
    }
}

/// Finds the colour in the text of an answer: what stands behind the first
/// `]11;` (white space may stand between `]` and `11`) up to the `BEL` or
/// `ESC` that follows, or up to the end of the text. The colour is not
/// looked into.
pub fn extract_color_spec(text: &str) -> (color: Option<String>)
    ensures
        match color {
            Some(color) => color_spec(text@) == Some(color@),
            None => color_spec(text@) is None,
        },
{
    let chars = chars_of(text);
    let mut at: usize = 0;
    while at < chars.len()
        invariant
            at <= chars.len(),
            chars@ == text@,
            first_head_end(chars@, 0) == first_head_end(chars@, at as int),
        decreases chars.len() - at,
    {
        match find_head_end(&chars, at) {
            Some(start) => {
                let end = find_color_end(&chars, start);
                let color = text.substring_char(start, end);
                return Some(color.to_owned());
            },
            None => {},
        }
        at += 1;
    }
    None
}

/// `String::from_utf8` of the standard library: the text that `buf`
/// encodes. There is one just when `buf` is well-formed UTF-8, and its
/// encoding is then `buf`.
#[verifier::external_body]
fn text_of_bytes(buf: Vec<u8>) -> (text: Option<String>)
    ensures
        text is Some <==> valid_utf8(buf@),
        text matches Some(text) ==> encode_utf8(text@) == buf@,
{
    String::from_utf8(buf).ok()
}

/// Reads the colour out of the bytes of an answer.
///
/// The bytes must be well-formed UTF-8, and the text must hold the head of
/// an answer to the question for the background colour. The result is the
/// colour as the terminal wrote it.
pub fn parse_color_response(buf: Vec<u8>) -> (color: Result<String, DecodeError>)
    ensures
        match color {
            Ok(color) => decoded(buf@) == Ok::<Seq<char>, DecodeError>(color@),
            Err(e) => decoded(buf@) == Err::<Seq<char>, DecodeError>(e),
        },
{
    let ghost bytes = buf@;
    match text_of_bytes(buf) {
        None => Err(DecodeError::InvalidText),
        Some(text) => {
            proof {
                encode_utf8_decode_utf8(text@);
            }
            match extract_color_spec(text.as_str()) {
                Some(color) => Ok(color),
                None => Err(DecodeError::NoColor),
            }
        },
    }
}

/// What a query reports when reading has ended with `buf`.
fn reply_from(buf: Vec<u8>) -> (reply: Result<String, QueryError>)
    ensures
        reply_view(reply) == reply_of(buf@),
{
    match parse_color_response(buf) {
        Ok(color) => Ok(color),
        Err(e) => Err(QueryError::Decode(e)),
    }
}

/// Ends the use of a terminal whose modes were both changed.
fn restoring(reply: Result<String, QueryError>) -> (step: (Query, Action))
    ensures
        (step.0@, step.1) == restore(reply_view(reply)),
{
    (Query::RestoringLine { reply, nonblocking: true }, Action::RestoreLineDiscipline)
}

/// Waits for the terminal again, or ends reading once the deadline has
/// passed.
fn waiting_or_stopping(buf: Vec<u8>, elapsed_ms: u64) -> (step: (Query, Action))
    ensures
        (step.0@, step.1) == wait_or_stop(buf@, elapsed_ms),
{
    if elapsed_ms >= DEADLINE_MS {
        restoring(reply_from(buf))
    } else {
        let left: u64 = DEADLINE_MS - elapsed_ms;
        let timeout_ms: u64 = if left < POLL_MS {
            left
        } else {
            POLL_MS
        };
        (Query::Polling { buf }, Action::Poll { timeout_ms })
    }
}

/// Takes a query one step further.
///
/// A query for the background colour is a sequence of actions on the
/// terminal: open it, change its two modes, write the question, wait and
/// read until the answer is complete or the deadline has passed, put the
/// two modes back, and finish. This function decides; its caller acts. The
/// caller starts with [`Query::Start`] and any event, performs the action
/// that comes back, and calls again with the state that came back and the
/// event that came of the action, until the action is [`Action::Finish`].
/// The state is then [`Query::Closed`] and holds the reply.
///
/// Whatever goes wrong once a mode has been changed, that mode is put back
/// before the query finishes, and a failure to put it back does not change
/// the reply.
pub fn query_bg_from_terminal(query: Query, event: Event) -> (step: (Query, Action))
    ensures
        (step.0@, step.1) == next(query@, event),
{
    match query {
        Query::Start => (Query::Opening, Action::Open),
        Query::Opening => match event {
            Event::Done => (Query::EnteringRawMode, Action::EnterRawMode),
            _ => (
                Query::Closed { reply: Err(QueryError::NoTerminal), restored: true },
                Action::Finish,
            ),
        },
        Query::EnteringRawMode => match event {
            Event::Done => (Query::EnteringNonBlocking, Action::EnterNonBlocking),
            _ => (Query::Closed { reply: Err(QueryError::RawMode), restored: true }, Action::Finish),
        },
        Query::EnteringNonBlocking => match event {
            Event::Done => (Query::Sending, Action::SendQuery),
            _ => (
                Query::RestoringLine { reply: Err(QueryError::NonBlocking), nonblocking: false },
                Action::RestoreLineDiscipline,
            ),
        },
        Query::Sending => match event {
            Event::Done => (Query::Polling { buf: Vec::new() }, Action::Poll { timeout_ms: POLL_MS }),
            _ => restoring(Err(QueryError::Write)),
        },
        Query::Polling { buf } => match event {
            Event::Readable => (Query::Reading { buf }, Action::Read { max_len: CHUNK_LEN }),
            Event::Idle { elapsed_ms } => waiting_or_stopping(buf, elapsed_ms),
            _ => restoring(Err(QueryError::Read)),
        },
        Query::Reading { buf } => match event {
            Event::Chunk { bytes, elapsed_ms } => {
                if bytes.len() == 0 {
                    restoring(reply_from(buf))
                } else {
                    let mut buf = buf;
                    let mut bytes = bytes;
                    buf.append(&mut bytes);
                    if has_terminator(&buf) {
                        restoring(reply_from(buf))
                    } else {
                        waiting_or_stopping(buf, elapsed_ms)
                    }
                }
            },
            Event::WouldBlock { elapsed_ms } => waiting_or_stopping(buf, elapsed_ms),
            _ => restoring(Err(QueryError::Read)),
        },
        Query::RestoringLine { reply, nonblocking } => {
            let line_restored = matches!(event, Event::Done);
            if nonblocking {
                (Query::RestoringFlags { reply, line_restored }, Action::RestoreBlockingFlags)
            } else {
                (Query::Closed { reply, restored: line_restored }, Action::Finish)
            }
        },
        Query::RestoringFlags { reply, line_restored } => {
            let flags_restored = matches!(event, Event::Done);
            (Query::Closed { reply, restored: line_restored && flags_restored }, Action::Finish)
        },
        Query::Closed { reply, restored } => (Query::Closed { reply, restored }, Action::Finish),
    }
}

} // verus!
