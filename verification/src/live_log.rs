//! The live log: a stream of events from the service, consumed one by one
//! until the stream ends or fails.

use vstd::prelude::*;
use vstd::string::*;
use crate::envelope::{ApiError, ApiErrorView};
use crate::json::{get_string, json_model, json_read, parse_value, string_member, JsonModel};
use crate::text::{join2, join3, owned};

verus! {

/// One log message of the stream as the service sends it. `typo` is the
/// member `type` of the wire format.
#[derive(Debug)]
pub struct LiveLogMessage {
    pub typo: String,
    pub level: String,
    pub time: String,
    pub data: String,
}

/// A `LiveLogMessage` as a mathematical value.
pub struct LiveLogMessageModel {
    pub typo: Seq<char>,
    pub level: Seq<char>,
    pub time: Seq<char>,
    pub data: Seq<char>,
}

impl View for LiveLogMessage {
    type V = LiveLogMessageModel;

    open spec fn view(&self) -> LiveLogMessageModel {
        LiveLogMessageModel {
            typo: self.typo@,
            level: self.level@,
            time: self.time@,
            data: self.data@,
        }
    }
}

/// The message that a JSON value holds: an object with the text members
/// `type`, `level`, `time` and `data`.
pub open spec fn message_of(j: JsonModel) -> Option<LiveLogMessageModel> {
    match (
        string_member(j, "type"@),
        string_member(j, "level"@),
        string_member(j, "time"@),
        string_member(j, "data"@),
    ) {
        (Some(typo), Some(level), Some(time), Some(data)) => Some(
            LiveLogMessageModel { typo, level, time, data },
        ),
        _ => None,
    }
}

/// The diagnostic for a payload that is JSON and no log message.
pub open spec fn no_message_text() -> Seq<char> {
    "the event holds no log message"@
}

/// What a parsed payload decodes to.
pub open spec fn decoded_message(j: JsonModel) -> Result<LiveLogMessageModel, ApiErrorView> {
    match message_of(j) {
        Some(message) => Ok(message),
        None => Err(ApiErrorView::Decode(no_message_text())),
    }
}

/// What the payload of an event decodes to, given what reading it as JSON
/// yields: the message, or a decode failure, with the parser's diagnostic
/// where the payload is no JSON.
pub open spec fn decoded_read(read: Result<JsonModel, Seq<char>>) -> Result<
    LiveLogMessageModel,
    ApiErrorView,
> {
    match read {
        Ok(j) => decoded_message(j),
        Err(diagnostic) => Err(ApiErrorView::Decode(diagnostic)),
    }
}

/// What decoding the payload of an event yields.
pub open spec fn decoded_payload(payload: Seq<char>) -> Result<LiveLogMessageModel, ApiErrorView> {
    decoded_read(json_read(payload))
}

/// The model of the outcome of decoding a payload.
pub open spec fn message_outcome_model(outcome: Result<LiveLogMessage, ApiError>) -> Result<
    LiveLogMessageModel,
    ApiErrorView,
> {
    match outcome {
        Ok(message) => Ok(message@),
        Err(error) => Err(error@),
    }
}

impl LiveLogMessage {
    /// Reads a message from a parsed payload.
    pub fn from_json(value: &serde_json::Value) -> (r: Option<LiveLogMessage>)
        ensures
            match r {
                Some(message) => message_of(json_model(*value)) == Some(message@),
                None => message_of(json_model(*value)) is None,
            },
    {
        let typo = match get_string(value, "type") {
            Some(typo) => typo,
            None => { return None; },
        };
        let level = match get_string(value, "level") {
            Some(level) => level,
            None => { return None; },
        };
        let time = match get_string(value, "time") {
            Some(time) => time,
            None => { return None; },
        };
        let data = match get_string(value, "data") {
            Some(data) => data,
            None => { return None; },
        };
        Some(LiveLogMessage { typo, level, time, data })
    }

    /// Decodes a parsed payload.
    pub fn decode(value: &serde_json::Value) -> (r: Result<LiveLogMessage, ApiError>)
        ensures
            message_outcome_model(r) == decoded_message(json_model(*value)),
    {
        match LiveLogMessage::from_json(value) {
            Some(message) => Ok(message),
            None => Err(ApiError::Decode(owned("the event holds no log message"))),
        }
    }

    /// Reads a message from the payload of an event.
    pub fn parse(payload: &str) -> (r: Result<LiveLogMessage, ApiError>)
        ensures
            message_outcome_model(r) == decoded_payload(payload@),
    {
        match parse_value(payload) {
            Err(diagnostic) => Err(ApiError::Decode(diagnostic)),
            Ok(value) => LiveLogMessage::decode(&value),
        }
    }
}

/// What the connection reports: it was opened, an event arrived with the
/// given payload, it failed with the given description, or it ended.
#[derive(Debug)]
pub enum StreamEvent {
    Open,
    Message(String),
    Failure(String),
    End,
}

/// A `StreamEvent` as a mathematical value.
pub enum StreamEventModel {
    Open,
    Message(Seq<char>),
    Failure(Seq<char>),
    End,
}

impl View for StreamEvent {
    type V = StreamEventModel;

    open spec fn view(&self) -> StreamEventModel {
        match self {
            StreamEvent::Open => StreamEventModel::Open,
            StreamEvent::Message(payload) => StreamEventModel::Message(payload@),
            StreamEvent::Failure(description) => StreamEventModel::Failure(description@),
            StreamEvent::End => StreamEventModel::End,
        }
    }
}

/// Where the consumer stands. `Closed` is final.
#[derive(Clone, Copy, Debug, PartialEq, Eq, Structural)]
pub enum LiveLogState {
    Connecting,
    Streaming,
    Closed,
}

/// What the caller is to do after an event.
#[derive(Debug)]
pub enum LiveLogAction {
    /// Nothing.
    Nothing,
    /// Tell the user, once, that the stream has started.
    Announce,
    /// Write the text to the output.
    Write(String),
    /// Report the description on the diagnostic channel and close the
    /// connection. The operation still ends as a success.
    ReportAndClose(String),
    /// Give the operation up with this failure.
    Fail(ApiError),
}

/// A `LiveLogAction` as a mathematical value.
pub enum LiveLogActionModel {
    Nothing,
    Announce,
    Write(Seq<char>),
    ReportAndClose(Seq<char>),
    Fail(ApiErrorView),
}

impl View for LiveLogAction {
    type V = LiveLogActionModel;

    open spec fn view(&self) -> LiveLogActionModel {
        match self {
            LiveLogAction::Nothing => LiveLogActionModel::Nothing,
            LiveLogAction::Announce => LiveLogActionModel::Announce,
            LiveLogAction::Write(text) => LiveLogActionModel::Write(text@),
            LiveLogAction::ReportAndClose(description) => LiveLogActionModel::ReportAndClose(
                description@,
            ),
            LiveLogAction::Fail(error) => LiveLogActionModel::Fail(error@),
        }
    }
}

/// The control sequence that clears the terminal and moves to its first cell.
pub open spec fn clear_screen_text() -> Seq<char> {
    seq!['\x1B', '[', '2', 'J', '\x1B', '[', '1', ';', '1', 'H']
}

/// What is written for a log line: the line and a line feed, after a
/// clearing of the screen where every event is to replace the last.
pub open spec fn frame_text(flush: bool, line: Seq<char>) -> Seq<char> {
    if flush {
        clear_screen_text() + line + seq!['\n']
    } else {
        line + seq!['\n']
    }
}

/// The step of the consumer on a message whose payload was decoded, or
/// could not be: the line is written, or the operation is given up.
pub open spec fn message_step(
    state: LiveLogState,
    flush: bool,
    message: Result<LiveLogMessageModel, ApiErrorView>,
) -> (LiveLogState, LiveLogActionModel) {
    if state == LiveLogState::Closed {
        (LiveLogState::Closed, LiveLogActionModel::Nothing)
    } else {
        match message {
            Ok(m) => (state, LiveLogActionModel::Write(frame_text(flush, m.data))),
            Err(error) => (LiveLogState::Closed, LiveLogActionModel::Fail(error)),
        }
    }
}

/// The step of the consumer: the state after an event and what is to be
/// done. The opening of the connection is announced once; a log message is
/// written whether or not the opening was seen; a failure of the connection
/// and the end of the stream close the consumer, and so does a payload that
/// is no log message, which alone gives the operation up.
pub open spec fn live_log_step(state: LiveLogState, flush: bool, event: StreamEventModel) -> (
    LiveLogState,
    LiveLogActionModel,
) {
    if state == LiveLogState::Closed {
        (LiveLogState::Closed, LiveLogActionModel::Nothing)
    } else {
        match event {
            StreamEventModel::Open => (
                LiveLogState::Streaming,
                if state == LiveLogState::Connecting {
                    LiveLogActionModel::Announce
                } else {
                    LiveLogActionModel::Nothing
                },
            ),
            StreamEventModel::Message(payload) => message_step(
                state,
                flush,
                decoded_payload(payload),
            ),
            StreamEventModel::Failure(description) => (
                LiveLogState::Closed,
                LiveLogActionModel::ReportAndClose(description),
            ),
            StreamEventModel::End => (LiveLogState::Closed, LiveLogActionModel::Nothing),
        }
    }
}

/// The words that announce the start of the stream.
pub fn announcement() -> (r: &'static str)
    ensures
        r@ == "Start to print live log"@,
{
    "Start to print live log"
}

/// The text written for a log line.
pub fn frame(flush: bool, line: &str) -> (r: String)
    ensures
        r@ == frame_text(flush, line@),
{
    proof {
        reveal_strlit("\n");
        reveal_strlit("\x1B[2J\x1B[1;1H");
    }
    if flush {
        join3("\x1B[2J\x1B[1;1H", line, "\n")
    } else {
        join2(line, "\n")
    }
}

/// The consumer of a live-log stream.
#[derive(Debug)]
pub struct LiveLog {
    state: LiveLogState,
    flush: bool,
}

impl LiveLog {
    /// Where the consumer stands.
    pub closed spec fn spec_state(&self) -> LiveLogState {
        self.state
    }

    /// Whether every log line replaces the one before it on the screen.
    pub closed spec fn spec_flush(&self) -> bool {
        self.flush
    }

    /// A consumer that waits for the connection to open.
    pub fn new(flush: bool) -> (r: LiveLog)
        ensures
            r.spec_state() == LiveLogState::Connecting,
            r.spec_flush() == flush,
    {
        LiveLog { state: LiveLogState::Connecting, flush }
    }

    /// Where the consumer stands.
    pub fn state(&self) -> (r: LiveLogState)
        ensures
            r == self.spec_state(),
    {
        self.state
    }

    /// Whether every log line replaces the one before it on the screen.
    pub fn flush(&self) -> (r: bool)
        ensures
            r == self.spec_flush(),
    {
        self.flush
    }

    /// Whether the stream is over.
    pub fn is_closed(&self) -> (r: bool)
        ensures
            r == (self.spec_state() == LiveLogState::Closed),
    {
        self.state == LiveLogState::Closed
    }

    /// Takes a message whose payload was decoded, or failed to decode.
    pub fn on_message(&mut self, message: Result<LiveLogMessage, ApiError>) -> (r: LiveLogAction)
        ensures
            final(self).spec_flush() == old(self).spec_flush(),
            (final(self).spec_state(), r@) == message_step(
                old(self).spec_state(),
                old(self).spec_flush(),
                match message {
                    Ok(m) => Ok(m@),
                    Err(error) => Err(error@),
                },
            ),
            message is Err && old(self).spec_state() != LiveLogState::Closed ==> r
                == LiveLogAction::Fail(message->Err_0),
    {
        if self.state == LiveLogState::Closed {
            return LiveLogAction::Nothing;
        }
        match message {
            Ok(m) => {
                let text = frame(self.flush, m.data.as_str());
                LiveLogAction::Write(text)
            },
            Err(error) => {
                self.state = LiveLogState::Closed;
                LiveLogAction::Fail(error)
            },
        }
    }

    /// Takes the next event of the connection.
    pub fn on_event(&mut self, event: &StreamEvent) -> (r: LiveLogAction)
        ensures
            final(self).spec_flush() == old(self).spec_flush(),
            (final(self).spec_state(), r@) == live_log_step(
                old(self).spec_state(),
                old(self).spec_flush(),
                event@,
            ),
    {
        if self.state == LiveLogState::Closed {
            return LiveLogAction::Nothing;
        }
        match event {
            StreamEvent::Open => {
                let first = self.state == LiveLogState::Connecting;
                self.state = LiveLogState::Streaming;
                if first {
                    LiveLogAction::Announce
                } else {
                    LiveLogAction::Nothing
                }
            },
            StreamEvent::Message(payload) => {
                let decoded = LiveLogMessage::parse(payload.as_str());
                self.on_message(decoded)
            },
            StreamEvent::Failure(description) => {
                self.state = LiveLogState::Closed;
                LiveLogAction::ReportAndClose(owned(description.as_str()))
            },
            StreamEvent::End => {
                self.state = LiveLogState::Closed;
                LiveLogAction::Nothing
            },
        }
    }
}

/// What a run of the consumer has done so far.
#[derive(Debug)]
pub struct LiveLogTranscript {
    /// Where the consumer stands.
    pub state: LiveLogState,
    /// Whether the user was told that the stream has started.
    pub announced: bool,
    /// Everything written to the output, in order.
    pub output: String,
    /// Everything reported on the diagnostic channel, in order.
    pub reports: Vec<String>,
    /// The failure that the operation was given up with, if it was.
    pub failure: Option<ApiError>,
}

/// A `LiveLogTranscript` as a mathematical value.
pub struct TranscriptModel {
    pub state: LiveLogState,
    pub announced: bool,
    pub output: Seq<char>,
    pub reports: Seq<Seq<char>>,
    pub failure: Option<ApiErrorView>,
}

/// The texts of a list of strings, in order.
pub open spec fn texts_of(strings: Seq<String>) -> Seq<Seq<char>> {
    Seq::new(strings.len(), |i: int| strings[i]@)
}

impl View for LiveLogTranscript {
    type V = TranscriptModel;

    open spec fn view(&self) -> TranscriptModel {
        TranscriptModel {
            state: self.state,
            announced: self.announced,
            output: self.output@,
            reports: texts_of(self.reports@),
            failure: match self.failure {
                Some(error) => Some(error@),
                None => None,
            },
        }
    }
}

/// The transcript before any event.
pub open spec fn empty_transcript() -> TranscriptModel {
    TranscriptModel {
        state: LiveLogState::Connecting,
        announced: false,
        output: Seq::empty(),
        reports: Seq::empty(),
        failure: None,
    }
}

/// The transcript after one more step was taken and its action carried out.
pub open spec fn record_step(
    before: TranscriptModel,
    step: (LiveLogState, LiveLogActionModel),
) -> TranscriptModel {
    match step.1 {
        LiveLogActionModel::Nothing => TranscriptModel { state: step.0, ..before },
        LiveLogActionModel::Announce => TranscriptModel {
            state: step.0,
            announced: true,
            ..before
        },
        LiveLogActionModel::Write(text) => TranscriptModel {
            state: step.0,
            output: before.output + text,
            ..before
        },
        LiveLogActionModel::ReportAndClose(description) => TranscriptModel {
            state: step.0,
            reports: before.reports.push(description),
            ..before
        },
        LiveLogActionModel::Fail(error) => TranscriptModel {
            state: step.0,
            failure: Some(error),
            ..before
        },
    }
}

/// The transcript of a run over a sequence of events.
pub open spec fn transcript_of(flush: bool, events: Seq<StreamEventModel>) -> TranscriptModel
    decreases events.len(),
{
    if events.len() == 0 {
        empty_transcript()
    } else {
        let before = transcript_of(flush, events.drop_last());
        record_step(before, live_log_step(before.state, flush, events.last()))
    }
}

/// The models of a list of events, in order.
pub open spec fn event_models(events: Seq<StreamEvent>) -> Seq<StreamEventModel> {
    Seq::new(events.len(), |i: int| events[i]@)
}

impl LiveLogTranscript {
    /// How the operation ends: as a success, unless it was given up.
    pub fn into_result(self) -> (r: Result<(), ApiError>)
        ensures
            r == (match self.failure {
                Some(error) => Err::<(), ApiError>(error),
                None => Ok(()),
            }),
    {
        match self.failure {
            Some(error) => Err(error),
            None => Ok(()),
        }
    }
}

/// Runs the consumer over the events of a connection, in order, and carries
/// out its actions on a transcript.
pub fn consume(flush: bool, events: &Vec<StreamEvent>) -> (r: LiveLogTranscript)
    ensures
        r@ == transcript_of(flush, event_models(events@)),
{
    let mut consumer = LiveLog::new(flush);
    let mut announced = false;
    let mut output = String::new();
    let mut reports: Vec<String> = Vec::new();
    let mut failure: Option<ApiError> = None;
    let mut i: usize = 0;
    assert(texts_of(reports@) =~= Seq::empty());
    while i < events.len()
        invariant
            i <= events.len(),
            consumer.spec_flush() == flush,
            (TranscriptModel {
                state: consumer.spec_state(),
                announced,
                output: output@,
                reports: texts_of(reports@),
                failure: match failure {
                    Some(error) => Some(error@),
                    None => None,
                },
            }) == transcript_of(flush, event_models(events@).subrange(0, i as int)),
        decreases events.len() - i,
    {
        proof {
            let all = event_models(events@);
            let next = all.subrange(0, i + 1);
            assert(next.drop_last() =~= all.subrange(0, i as int));
        }
        let ghost old_reports = reports@;
        match consumer.on_event(&events[i]) {
            LiveLogAction::Nothing => {},
            LiveLogAction::Announce => {
                announced = true;
            },
            LiveLogAction::Write(text) => {
                output.append(text.as_str());
            },
            LiveLogAction::ReportAndClose(description) => {
                reports.push(description);
                assert(texts_of(reports@) =~= texts_of(old_reports).push(description@));
            },
            LiveLogAction::Fail(error) => {
                failure = Some(error);
            },
        }
        i = i + 1;
    }
    assert(event_models(events@).subrange(0, i as int) =~= event_models(events@));
    LiveLogTranscript { state: consumer.state(), announced, output, reports, failure }
}

/// Once the stream is over, no event changes anything or asks for anything.
pub proof fn lemma_closed_is_final(flush: bool, event: StreamEventModel)
    ensures
        live_log_step(LiveLogState::Closed, flush, event) == (
            LiveLogState::Closed,
            LiveLogActionModel::Nothing,
        ),
{
}

/// The consumer never goes back: it leaves `Connecting` for good, and
/// `Closed` not at all.
pub proof fn lemma_states_only_advance(state: LiveLogState, flush: bool, event: StreamEventModel)
    ensures
        state == LiveLogState::Closed ==> live_log_step(state, flush, event).0
            == LiveLogState::Closed,
        state == LiveLogState::Streaming ==> live_log_step(state, flush, event).0
            != LiveLogState::Connecting,
{
}

/// A failure of the connection is reported and closes the stream, but never
/// gives the operation up; only a payload that is no log message does.
pub proof fn lemma_only_payloads_fail(state: LiveLogState, flush: bool, event: StreamEventModel)
    ensures
        live_log_step(state, flush, event).1 is Fail <==> state != LiveLogState::Closed
            && event is Message && decoded_payload(event->Message_0) is Err,
        event is Failure && state != LiveLogState::Closed ==> live_log_step(state, flush, event)
            == (LiveLogState::Closed, LiveLogActionModel::ReportAndClose(event->Failure_0)),
{
}

/// The output only grows: what was written stays, and each further event
/// adds at its end.
pub proof fn lemma_output_grows(flush: bool, events: Seq<StreamEventModel>, event: StreamEventModel)
    ensures
        transcript_of(flush, events).output.is_prefix_of(
            transcript_of(flush, events.push(event)).output,
        ),
{
    assert(events.push(event).drop_last() =~= events);
}

/// The user is told of the start at most once, and only when the connection
/// has opened: while the consumer waits for the connection nothing was
/// announced or written by an `Open`.
pub proof fn lemma_announced_after_open(flush: bool, events: Seq<StreamEventModel>)
    ensures
        transcript_of(flush, events).state == LiveLogState::Connecting ==> !transcript_of(
            flush,
            events,
        ).announced,
        transcript_of(flush, events).announced ==> exists|i: int|
            0 <= i < events.len() && events[i] is Open,
    decreases events.len(),
{
    if events.len() > 0 {
        lemma_announced_after_open(flush, events.drop_last());
        if transcript_of(flush, events.drop_last()).announced {
            let i = choose|i: int|
                0 <= i < events.drop_last().len() && events.drop_last()[i] is Open;
            assert(events[i] is Open);
        } else if transcript_of(flush, events).announced {
            assert(events[events.len() - 1] is Open);
        }
    }
}

} // verus!
