use vstd::prelude::*;
use vstd::pervasive::unreached;
use vstd::string::StringExecFns;
use crate::payload::payload_columns;
use crate::frame::{CellValue, CellView, ColumnView, cells_view, first_cell, first_cell_of};

verus! {

/// A command that the runtime sends to a running section.
#[derive(Clone, Copy, Debug, PartialEq, Eq, Structural)]
pub enum Command {
    /// The section must stop.
    Stop,
    /// Any other command; the section ignores it.
    Other,
}

/// Why the event loop of the Bacalhau section ended with an error.
#[derive(Debug)]
pub enum LoopError<E> {
    /// The stream of incoming messages ended.
    InputStreamClosed,
    /// The command channel, a message, the log or a job submission failed.
    Section(E),
}

/// A chunk of the message being read.
pub enum ChunkEvent {
    /// A data frame: the values of each of its columns, and its rendering as
    /// text for the log.
    DataFrame { columns: Vec<Vec<CellValue>>, rendered: String },
    /// A chunk of any other kind; the section skips it.
    Other,
}

/// The text that reports the end of the input.
pub open spec fn input_closed_text() -> Seq<char> {
    "input stream closed"@
}

impl<E> LoopError<E> {
    /// The text that reports this error: for the end of the input, its own
    /// text; a failure of the section is reported as that failure, so it has
    /// none here.
    pub fn message(&self) -> (text: Option<String>)
        ensures
            match self {
                LoopError::InputStreamClosed => text matches Some(t) && t@ == input_closed_text(),
                LoopError::Section(_) => text is None,
            },
    {
        match self {
            LoopError::InputStreamClosed => Some(String::from_str("input stream closed")),
            LoopError::Section(_) => None,
        }
    }
}

/// What the driver of the event loop observed after performing the last
/// action.
pub enum LoopEvent<E> {
    /// A command arrived, or receiving one failed.
    Command(Result<Command, E>),
    /// A message arrived from the named origin, or (`None`) the input ended.
    Input(Option<String>),
    /// The next chunk of the current message; `None` once it has no more.
    Chunk(Result<Option<ChunkEvent>, E>),
    /// Writing a log line finished.
    Logged(Result<(), E>),
    /// Submitting the job finished.
    Submitted(Result<(), E>),
    /// Acknowledging the current message finished.
    Acked,
}

/// What the driver of the event loop must do next.
pub enum LoopAction<E> {
    /// Wait for a command or an incoming message, commands first.
    AwaitCommandOrInput,
    /// Wait for the next chunk of the current message.
    AwaitChunk,
    /// Write this line to the section's log.
    Log(String),
    /// Submit the section's job with no template arguments.
    SubmitJob,
    /// Acknowledge the current message.
    Ack,
    /// Leave the loop with this result.
    Return(Result<(), LoopError<E>>),
}

/// Where the event loop stands. `origin` is the sender of the message being
/// read.
pub enum LoopState {
    AwaitingInput,
    ReadingChunks { origin: String },
    /// The data frame was logged; `first` is the first value of its first
    /// column, if it has one.
    LoggingFrame { origin: String, first: Option<CellValue> },
    /// The string found in a data frame was logged.
    LoggingString { origin: String },
    Submitting { origin: String },
    Acknowledging { origin: String },
    Finished,
}

pub enum ChunkEventView {
    DataFrame { columns: Seq<Seq<CellView>>, rendered: Seq<char> },
    Other,
}

pub enum LoopEventView<E> {
    Command(Result<Command, E>),
    Input(Option<Seq<char>>),
    Chunk(Result<Option<ChunkEventView>, E>),
    Logged(Result<(), E>),
    Submitted(Result<(), E>),
    Acked,
}

pub enum LoopActionView<E> {
    AwaitCommandOrInput,
    AwaitChunk,
    Log(Seq<char>),
    SubmitJob,
    Ack,
    Return(Result<(), LoopError<E>>),
}

pub enum LoopStateView {
    AwaitingInput,
    ReadingChunks { origin: Seq<char> },
    LoggingFrame { origin: Seq<char>, first: Option<CellView> },
    LoggingString { origin: Seq<char> },
    Submitting { origin: Seq<char> },
    Acknowledging { origin: Seq<char> },
    Finished,
}

impl View for ChunkEvent {
    type V = ChunkEventView;

    open spec fn view(&self) -> ChunkEventView {
        match self {
            ChunkEvent::DataFrame { columns, rendered } => ChunkEventView::DataFrame {
                columns: cells_view(columns@),
                rendered: rendered@,
            },
            ChunkEvent::Other => ChunkEventView::Other,
        }
    }
}

impl<E> View for LoopEvent<E> {
    type V = LoopEventView<E>;

    open spec fn view(&self) -> LoopEventView<E> {
        match self {
            LoopEvent::Command(c) => LoopEventView::Command(*c),
            LoopEvent::Input(o) => LoopEventView::Input(
                match o {
                    Some(s) => Some(s@),
                    None => None,
                },
            ),
            LoopEvent::Chunk(c) => LoopEventView::Chunk(
                match c {
                    Ok(Some(ch)) => Ok(Some(ch@)),
                    Ok(None) => Ok(None),
                    Err(e) => Err(*e),
                },
            ),
            LoopEvent::Logged(r) => LoopEventView::Logged(*r),
            LoopEvent::Submitted(r) => LoopEventView::Submitted(*r),
            LoopEvent::Acked => LoopEventView::Acked,
        }
    }
}

impl<E> View for LoopAction<E> {
    type V = LoopActionView<E>;

    open spec fn view(&self) -> LoopActionView<E> {
        match self {
            LoopAction::AwaitCommandOrInput => LoopActionView::AwaitCommandOrInput,
            LoopAction::AwaitChunk => LoopActionView::AwaitChunk,
            LoopAction::Log(s) => LoopActionView::Log(s@),
            LoopAction::SubmitJob => LoopActionView::SubmitJob,
            LoopAction::Ack => LoopActionView::Ack,
            LoopAction::Return(r) => LoopActionView::Return(*r),
        }
    }
}

impl View for LoopState {
    type V = LoopStateView;

    open spec fn view(&self) -> LoopStateView {
        match self {
            LoopState::AwaitingInput => LoopStateView::AwaitingInput,
            LoopState::ReadingChunks { origin } => LoopStateView::ReadingChunks { origin: origin@ },
            LoopState::LoggingFrame { origin, first } => LoopStateView::LoggingFrame {
                origin: origin@,
                first: match first {
                    Some(c) => Some(c@),
                    None => None,
                },
            },
            LoopState::LoggingString { origin } => LoopStateView::LoggingString { origin: origin@ },
            LoopState::Submitting { origin } => LoopStateView::Submitting { origin: origin@ },
            LoopState::Acknowledging { origin } => LoopStateView::Acknowledging { origin: origin@ },
            LoopState::Finished => LoopStateView::Finished,
        }
    }
}

/// The log line written for each data frame received.
pub open spec fn frame_log_line(origin: Seq<char>, rendered: Seq<char>) -> Seq<char> {
    "got dataframe chunk from "@ + origin + ":\n"@ + rendered
}

/// The log line written for the string found in a data frame.
pub open spec fn string_log_line(s: Seq<char>) -> Seq<char> {
    "got string: "@ + s
}

/// Whether the loop, standing at `s`, can observe `e`: each state waits for
/// one kind of event, a finished loop for none, and a data frame has at least
/// a value in its first column for the loop to go on past its log line.
pub open spec fn event_fits<E>(s: LoopStateView, e: LoopEventView<E>) -> bool {
    match s {
        LoopStateView::AwaitingInput => e is Command || e is Input,
        LoopStateView::ReadingChunks { .. } => e is Chunk,
        LoopStateView::LoggingFrame { first, .. } => match e {
            LoopEventView::Logged(Ok(())) => first is Some,
            LoopEventView::Logged(Err(_)) => true,
            _ => false,
        },
        LoopStateView::LoggingString { .. } => e is Logged,
        LoopStateView::Submitting { .. } => e is Submitted,
        LoopStateView::Acknowledging { .. } => e is Acked,
        LoopStateView::Finished => false,
    }
}

/// One transition of the event loop of the Bacalhau section.
///
/// Waiting for input, a `Stop` command ends the loop successfully, another
/// command is ignored, and the end of the input is an error. A message is
/// read chunk by chunk until it has no more, and the loop waits for input
/// again. Chunks that are not data frames are skipped. Each data frame is
/// logged; when the first value of its first column is a string, that string
/// is logged, the job is submitted and the message is acknowledged; otherwise
/// the frame is skipped. Any failure ends the loop with that failure.
pub open spec fn loop_next<E>(s: LoopStateView, e: LoopEventView<E>) -> (LoopStateView, LoopActionView<E>) {
    match (s, e) {
        (LoopStateView::AwaitingInput, LoopEventView::Command(Err(err))) =>
            (LoopStateView::Finished, LoopActionView::Return(Err(LoopError::Section(err)))),
        (LoopStateView::AwaitingInput, LoopEventView::Command(Ok(Command::Stop))) =>
            (LoopStateView::Finished, LoopActionView::Return(Ok(()))),
        (LoopStateView::AwaitingInput, LoopEventView::Command(Ok(Command::Other))) =>
            (LoopStateView::AwaitingInput, LoopActionView::AwaitCommandOrInput),
        (LoopStateView::AwaitingInput, LoopEventView::Input(None)) =>
            (LoopStateView::Finished, LoopActionView::Return(Err(LoopError::InputStreamClosed))),
        (LoopStateView::AwaitingInput, LoopEventView::Input(Some(origin))) =>
            (LoopStateView::ReadingChunks { origin }, LoopActionView::AwaitChunk),
        (LoopStateView::ReadingChunks { origin }, LoopEventView::Chunk(c)) => match c {
            Err(err) => (LoopStateView::Finished, LoopActionView::Return(Err(LoopError::Section(err)))),
            Ok(None) => (LoopStateView::AwaitingInput, LoopActionView::AwaitCommandOrInput),
            Ok(Some(ChunkEventView::Other)) => (LoopStateView::ReadingChunks { origin }, LoopActionView::AwaitChunk),
            Ok(Some(ChunkEventView::DataFrame { columns, rendered })) => (
                LoopStateView::LoggingFrame { origin, first: first_cell(columns) },
                LoopActionView::Log(frame_log_line(origin, rendered)),
            ),
        },
        (LoopStateView::LoggingFrame { origin, first }, LoopEventView::Logged(r)) => match r {
            Err(err) => (LoopStateView::Finished, LoopActionView::Return(Err(LoopError::Section(err)))),
            Ok(()) => match first {
                Some(CellView::Str(text)) => (
                    LoopStateView::LoggingString { origin },
                    LoopActionView::Log(string_log_line(text)),
                ),
                Some(CellView::Other) => (LoopStateView::ReadingChunks { origin }, LoopActionView::AwaitChunk),
                None => (s, LoopActionView::AwaitCommandOrInput),
            },
        },
        (LoopStateView::LoggingString { origin }, LoopEventView::Logged(r)) => match r {
            Err(err) => (LoopStateView::Finished, LoopActionView::Return(Err(LoopError::Section(err)))),
            Ok(()) => (LoopStateView::Submitting { origin }, LoopActionView::SubmitJob),
        },
        (LoopStateView::Submitting { origin }, LoopEventView::Submitted(r)) => match r {
            Err(err) => (LoopStateView::Finished, LoopActionView::Return(Err(LoopError::Section(err)))),
            Ok(()) => (LoopStateView::Acknowledging { origin }, LoopActionView::Ack),
        },
        (LoopStateView::Acknowledging { origin }, LoopEventView::Acked) =>
            (LoopStateView::ReadingChunks { origin }, LoopActionView::AwaitChunk),
        _ => (s, LoopActionView::AwaitCommandOrInput),
    }
}

fn line_for_frame(origin: &String, rendered: &String) -> (line: String)
    ensures
        line@ == frame_log_line(origin@, rendered@),
{
    let mut line = String::from_str("got dataframe chunk from ");
    line.append(origin.as_str());
    line.append(":\n");
    line.append(rendered.as_str());
    line
}

fn line_for_string(text: &String) -> (line: String)
    ensures
        line@ == string_log_line(text@),
{
    let mut line = String::from_str("got string: ");
    line.append(text.as_str());
    line
}

/// Decides the next state of the event loop and the action that its driver
/// performs, from the current state and the event just observed.
pub fn step<E>(state: LoopState, event: LoopEvent<E>) -> (next: (LoopState, LoopAction<E>))
    requires
        event_fits(state@, event@),
    ensures
        (next.0@, next.1@) == loop_next(state@, event@),
{
    match state {
        LoopState::AwaitingInput => match event {
            LoopEvent::Command(Err(err)) => (LoopState::Finished, LoopAction::Return(Err(LoopError::Section(err)))),
            LoopEvent::Command(Ok(Command::Stop)) => (LoopState::Finished, LoopAction::Return(Ok(()))),
            LoopEvent::Command(Ok(Command::Other)) => (LoopState::AwaitingInput, LoopAction::AwaitCommandOrInput),
            LoopEvent::Input(None) => (LoopState::Finished, LoopAction::Return(Err(LoopError::InputStreamClosed))),
            LoopEvent::Input(Some(origin)) => (LoopState::ReadingChunks { origin }, LoopAction::AwaitChunk),
            _ => unreached(),
        },
        LoopState::ReadingChunks { origin } => match event {
            LoopEvent::Chunk(Err(err)) => (LoopState::Finished, LoopAction::Return(Err(LoopError::Section(err)))),
            LoopEvent::Chunk(Ok(None)) => (LoopState::AwaitingInput, LoopAction::AwaitCommandOrInput),
            LoopEvent::Chunk(Ok(Some(ChunkEvent::Other))) => (LoopState::ReadingChunks { origin }, LoopAction::AwaitChunk),
            LoopEvent::Chunk(Ok(Some(ChunkEvent::DataFrame { columns, rendered }))) => {
                let first = first_cell_of(&columns);
                let line = line_for_frame(&origin, &rendered);
                (LoopState::LoggingFrame { origin, first }, LoopAction::Log(line))
            },
            _ => unreached(),
        },
        LoopState::LoggingFrame { origin, first } => match event {
            LoopEvent::Logged(Err(err)) => (LoopState::Finished, LoopAction::Return(Err(LoopError::Section(err)))),
            LoopEvent::Logged(Ok(())) => match first {
                Some(CellValue::Str(text)) => {
                    let line = line_for_string(&text);
                    (LoopState::LoggingString { origin }, LoopAction::Log(line))
                },
                Some(CellValue::Other) => (LoopState::ReadingChunks { origin }, LoopAction::AwaitChunk),
                None => unreached(),
            },
            _ => unreached(),
        },
        LoopState::LoggingString { origin } => match event {
            LoopEvent::Logged(Err(err)) => (LoopState::Finished, LoopAction::Return(Err(LoopError::Section(err)))),
            LoopEvent::Logged(Ok(())) => (LoopState::Submitting { origin }, LoopAction::SubmitJob),
            _ => unreached(),
        },
        LoopState::Submitting { origin } => match event {
            LoopEvent::Submitted(Err(err)) => (LoopState::Finished, LoopAction::Return(Err(LoopError::Section(err)))),
            LoopEvent::Submitted(Ok(())) => (LoopState::Acknowledging { origin }, LoopAction::Ack),
            _ => unreached(),
        },
        LoopState::Acknowledging { origin } => (LoopState::ReadingChunks { origin }, LoopAction::AwaitChunk),
        LoopState::Finished => unreached(),
    }
}

/// The state of the loop, started at `start`, after it has observed the
/// first `i` of `events`.
pub open spec fn state_at<E>(start: LoopStateView, events: Seq<LoopEventView<E>>, i: nat) -> LoopStateView
    decreases i,
{
    if i == 0 {
        start
    } else {
        loop_next(state_at(start, events, (i - 1) as nat), events[i - 1]).0
    }
}

/// The action that the loop asks for when it observes `events[i]`.
pub open spec fn action_at<E>(start: LoopStateView, events: Seq<LoopEventView<E>>, i: nat) -> LoopActionView<E> {
    loop_next(state_at(start, events, i), events[i as int]).1
}

/// `events` is a possible run of the loop from `start`: each event is one
/// that the loop can observe where it then stands.
pub open spec fn is_run<E>(start: LoopStateView, events: Seq<LoopEventView<E>>) -> bool {
    forall|i: nat| i < events.len() ==> #[trigger] event_fits(state_at(start, events, i), events[i as int])
}

/// A message is acknowledged only right after its job was submitted
/// successfully.
pub proof fn lemma_ack_follows_submit<E>(events: Seq<LoopEventView<E>>, i: nat)
    requires
        is_run(LoopStateView::AwaitingInput, events),
        i < events.len(),
        action_at(LoopStateView::AwaitingInput, events, i) is Ack,
    ensures
        i > 0,
        action_at(LoopStateView::AwaitingInput, events, (i - 1) as nat) is SubmitJob,
        events[i as int] == LoopEventView::<E>::Submitted(Ok(())),
{
    let start = LoopStateView::AwaitingInput;
    assert(event_fits(state_at(start, events, i), events[i as int]));
    assert(state_at(start, events, i) is Submitting);
    let r = events[i as int]->Submitted_0;
    assert(r is Ok);
    assert(r->Ok_0 == ());
    assert(r == Ok::<(), E>(()));
    assert(i > 0);
    let j = (i - 1) as nat;
    assert(event_fits(state_at(start, events, j), events[j as int]));
}

/// A job is submitted only right after a string found in a data frame was
/// logged successfully.
pub proof fn lemma_submit_follows_string_log<E>(events: Seq<LoopEventView<E>>, i: nat)
    requires
        is_run(LoopStateView::AwaitingInput, events),
        i < events.len(),
        action_at(LoopStateView::AwaitingInput, events, i) is SubmitJob,
    ensures
        i > 0,
        events[i as int] == LoopEventView::<E>::Logged(Ok(())),
        exists|text: Seq<char>|
            action_at(LoopStateView::AwaitingInput, events, (i - 1) as nat) == LoopActionView::<E>::Log(
                #[trigger] string_log_line(text),
            ),
{
    let start = LoopStateView::AwaitingInput;
    assert(event_fits(state_at(start, events, i), events[i as int]));
    assert(state_at(start, events, i) is LoggingString);
    let r = events[i as int]->Logged_0;
    assert(r is Ok);
    assert(r->Ok_0 == ());
    assert(r == Ok::<(), E>(()));
    assert(i > 0);
    let j = (i - 1) as nat;
    assert(event_fits(state_at(start, events, j), events[j as int]));
    let prev = state_at(start, events, j);
    assert(prev is LoggingFrame);
    let text = prev->LoggingFrame_first->Some_0->Str_0;
    assert(action_at(start, events, j) == LoopActionView::<E>::Log(string_log_line(text)));
}

/// Once the loop returns, it observes nothing more: a return is the last
/// action of any run.
pub proof fn lemma_return_ends_run<E>(events: Seq<LoopEventView<E>>, i: nat)
    requires
        is_run(LoopStateView::AwaitingInput, events),
        i < events.len(),
        action_at(LoopStateView::AwaitingInput, events, i) is Return,
    ensures
        i == events.len() - 1,
{
    let start = LoopStateView::AwaitingInput;
    assert(event_fits(state_at(start, events, i), events[i as int]));
    let k = (i + 1) as nat;
    assert(state_at(start, events, k) is Finished);
    if k < events.len() {
        assert(event_fits(state_at(start, events, k), events[k as int]));
    }
}

/// The loop ends without an error only on a `Stop` command.
pub proof fn lemma_clean_return_only_on_stop<E>(events: Seq<LoopEventView<E>>, i: nat)
    requires
        is_run(LoopStateView::AwaitingInput, events),
        i < events.len(),
        action_at(LoopStateView::AwaitingInput, events, i) == LoopActionView::<E>::Return(Ok(())),
    ensures
        events[i as int] == LoopEventView::<E>::Command(Ok(Command::Stop)),
{
    let start = LoopStateView::AwaitingInput;
    assert(event_fits(state_at(start, events, i), events[i as int]));
}

/// A Bacalhau payload that arrives as a data frame is logged, then its file
/// path is logged, then the job is submitted and, once that succeeded, the
/// message is acknowledged; the loop then reads on in the same message.
pub proof fn lemma_payload_frame_submits_job<E>(origin: Seq<char>, filepath: Seq<char>, rendered: Seq<char>)
    ensures
        ({
            let s0 = LoopStateView::ReadingChunks { origin };
            let e0 = LoopEventView::<E>::Chunk(
                Ok(Some(ChunkEventView::DataFrame { columns: payload_columns(filepath).map_values(|c: ColumnView| c.values), rendered })),
            );
            let (s1, a1) = loop_next(s0, e0);
            let (s2, a2) = loop_next(s1, LoopEventView::<E>::Logged(Ok(())));
            let (s3, a3) = loop_next(s2, LoopEventView::<E>::Logged(Ok(())));
            let (s4, a4) = loop_next(s3, LoopEventView::<E>::Submitted(Ok(())));
            let (s5, a5) = loop_next(s4, LoopEventView::<E>::Acked);
            &&& event_fits(s0, e0)
            &&& a1 == LoopActionView::<E>::Log(frame_log_line(origin, rendered))
            &&& event_fits(s1, LoopEventView::<E>::Logged(Ok(())))
            &&& a2 == LoopActionView::<E>::Log(string_log_line(filepath))
            &&& event_fits(s2, LoopEventView::<E>::Logged(Ok(())))
            &&& a3 == LoopActionView::<E>::SubmitJob
            &&& event_fits(s3, LoopEventView::<E>::Submitted(Ok(())))
            &&& a4 == LoopActionView::<E>::Ack
            &&& event_fits(s4, LoopEventView::<E>::Acked)
            &&& a5 == LoopActionView::<E>::AwaitChunk
            &&& s5 == s0
        }),
{
    let columns = payload_columns(filepath).map_values(|c: ColumnView| c.values);
    assert(first_cell(columns) == Some(CellView::Str(filepath)));
}

/// After a data frame is logged, the loop decides on the first value of its
/// first column alone: a string is logged and its job submitted; any other
/// value makes the loop skip the frame and read on, with no job submitted and
/// nothing acknowledged.
pub proof fn lemma_frame_decided_by_first_value<E>(
    origin: Seq<char>,
    columns: Seq<Seq<CellView>>,
    rendered: Seq<char>,
)
    requires
        columns.len() > 0,
        columns[0].len() > 0,
    ensures
        ({
            let s0 = LoopStateView::ReadingChunks { origin };
            let e0 = LoopEventView::<E>::Chunk(Ok(Some(ChunkEventView::DataFrame { columns, rendered })));
            let (s1, a1) = loop_next(s0, e0);
            let logged = LoopEventView::<E>::Logged(Ok(()));
            let (s2, a2) = loop_next(s1, logged);
            &&& event_fits(s0, e0)
            &&& a1 == LoopActionView::<E>::Log(frame_log_line(origin, rendered))
            &&& event_fits(s1, logged)
            &&& (columns[0][0] is Other ==> s2 == s0 && a2 == LoopActionView::<E>::AwaitChunk)
            &&& (columns[0][0] matches CellView::Str(text) ==> {
                &&& a2 == LoopActionView::<E>::Log(string_log_line(text))
                &&& event_fits(s2, logged)
                &&& loop_next(s2, logged).1 == LoopActionView::<E>::SubmitJob
            })
        }),
{
}

/// A job is submitted only for a data frame whose first column starts with a
/// string: two events earlier the loop received such a frame, and the event
/// before the submission logged that very string.
pub proof fn lemma_submit_only_for_string_frame<E>(events: Seq<LoopEventView<E>>, i: nat)
    requires
        is_run(LoopStateView::AwaitingInput, events),
        i < events.len(),
        action_at(LoopStateView::AwaitingInput, events, i) is SubmitJob,
    ensures
        i >= 2,
        exists|columns: Seq<Seq<CellView>>, rendered: Seq<char>, text: Seq<char>|
            {
                &&& #[trigger] events[i - 2] == LoopEventView::<E>::Chunk(
                    Ok(Some(ChunkEventView::DataFrame { columns, rendered })),
                )
                &&& columns.len() > 0
                &&& columns[0].len() > 0
                &&& columns[0][0] == CellView::Str(text)
                &&& action_at(LoopStateView::AwaitingInput, events, (i - 1) as nat) == LoopActionView::<E>::Log(
                    string_log_line(text),
                )
            },
{
    let start = LoopStateView::AwaitingInput;
    assert(event_fits(state_at(start, events, i), events[i as int]));
    assert(state_at(start, events, i) is LoggingString);
    assert(i > 0);
    let j = (i - 1) as nat;
    assert(state_at(start, events, i) == loop_next(state_at(start, events, j), events[j as int]).0);
    assert(event_fits(state_at(start, events, j), events[j as int]));
    let prev = state_at(start, events, j);
    assert(prev is LoggingFrame);
    assert(j > 0);
    let k = (j - 1) as nat;
    assert(state_at(start, events, j) == loop_next(state_at(start, events, k), events[k as int]).0);
    assert(event_fits(state_at(start, events, k), events[k as int]));
    assert(state_at(start, events, k) is ReadingChunks);
    let e = events[k as int];
    assert(e is Chunk);
    let c = e->Chunk_0;
    assert(c is Ok);
    let ch = c->Ok_0;
    assert(ch is Some);
    let frame = ch->Some_0;
    assert(frame is DataFrame);
    let columns = frame->DataFrame_columns;
    let rendered = frame->DataFrame_rendered;
    let text = prev->LoggingFrame_first->Some_0->Str_0;
    assert(first_cell(columns) == Some(CellView::Str(text)));
    assert(e == LoopEventView::<E>::Chunk(Ok(Some(ChunkEventView::DataFrame { columns, rendered }))));
    assert(action_at(start, events, j) == LoopActionView::<E>::Log(string_log_line(text)));
    assert(k == i - 2);
}

/// A message is acknowledged only for a data frame whose first column starts
/// with a string: three events earlier the loop received such a frame.
pub proof fn lemma_ack_only_for_string_frame<E>(events: Seq<LoopEventView<E>>, i: nat)
    requires
        is_run(LoopStateView::AwaitingInput, events),
        i < events.len(),
        action_at(LoopStateView::AwaitingInput, events, i) is Ack,
    ensures
        i >= 3,
        exists|columns: Seq<Seq<CellView>>, rendered: Seq<char>, text: Seq<char>|
            {
                &&& #[trigger] events[i - 3] == LoopEventView::<E>::Chunk(
                    Ok(Some(ChunkEventView::DataFrame { columns, rendered })),
                )
                &&& columns.len() > 0
                &&& columns[0].len() > 0
                &&& columns[0][0] == CellView::Str(text)
            },
{
    lemma_ack_follows_submit(events, i);
    let j = (i - 1) as nat;
    lemma_submit_only_for_string_frame(events, j);
}

} // verus!
