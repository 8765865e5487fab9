//! The stream reader's decisions. A driver owns the connection and the clock
//! of its sleeps: it hands each outcome to [`EventSource::step`] and performs
//! the step that comes back.
use vstd::prelude::*;
use vstd::utf8::{decode_utf8, valid_utf8};
use crate::backoff::{adaptive_delay, adaptive_wait, local_time_of_hour, TimeOfHour, NANOS_PER_MILLI};
use crate::grammar::{field_name, field_name_of, field_of, has_nul, is_dispatch, line_is_dispatch, split_field, FieldName};
use crate::text::{chars_of, parse_u32, parse_u32_spec, string_from_utf8, string_of};

verus! {

/// The wait before a reconnect until the server sets another.
pub const DEFAULT_DELAY_MS: u32 = 3000;

/// One dispatched record.
#[derive(Debug)]
pub struct Message {
    pub event: Option<String>,
    pub data: String,
    pub last_event_id: Option<String>,
}

pub struct MessageView {
    pub event: Option<Seq<char>>,
    pub data: Seq<char>,
    pub last_event_id: Option<Seq<char>>,
}

pub open spec fn opt_string_view(o: Option<String>) -> Option<Seq<char>> {
    match o {
        Some(s) => Some(s@),
        None => None,
    }
}

pub open spec fn opt_chars_view(o: Option<Vec<char>>) -> Option<Seq<char>> {
    match o {
        Some(v) => Some(v@),
        None => None,
    }
}

impl View for Message {
    type V = MessageView;

    open spec fn view(&self) -> MessageView {
        MessageView {
            event: opt_string_view(self.event),
            data: self.data@,
            last_event_id: opt_string_view(self.last_event_id),
        }
    }
}

#[derive(Debug)]
pub enum EventSourceError {
    /// The request failed with this status and body text.
    UreqError(u16, String),
    /// A line of the stream is not valid UTF-8.
    UtfError(std::string::FromUtf8Error),
}

impl EventSourceError {
    /// A one-line description of the error.
    pub fn description(&self) -> (r: String)
        ensures
            self is UreqError ==> r@ == "Error while making request"@,
            self is UtfError ==> r@ == "Error while converting to utf-8"@,
    {
        match self {
            EventSourceError::UreqError(..) => String::from_str("Error while making request"),
            EventSourceError::UtfError(..) => String::from_str("Error while converting to utf-8"),
        }
    }
}

/// Whether a response body is attached, or the sequence is over for good.
#[derive(Clone, Copy, Debug, PartialEq, Eq, Structural)]
pub enum Phase {
    Disconnected,
    Connected,
    Finished,
}

/// What the driver reports.
pub enum Input {
    /// The consumer asks for the next message.
    Pull,
    /// A request succeeded and its body is attached.
    Connected,
    /// The server answered 204 No Content.
    NoContent,
    /// The request failed, reading the body failed, or the server answered
    /// with a status other than success; with the local time then, which
    /// paces the adaptive wait.
    TransportFailure(TimeOfHour),
    /// The wait before a reconnect is over.
    Slept,
    /// One line of the body, its line feed included; empty at the end of the body.
    Line(Vec<u8>),
}

pub enum InputView {
    Pull,
    Connected,
    NoContent,
    TransportFailure(TimeOfHour),
    Slept,
    Line(Seq<u8>),
}

impl View for Input {
    type V = InputView;

    open spec fn view(&self) -> InputView {
        match self {
            Input::Pull => InputView::Pull,
            Input::Connected => InputView::Connected,
            Input::NoContent => InputView::NoContent,
            Input::TransportFailure(t) => InputView::TransportFailure(*t),
            Input::Slept => InputView::Slept,
            Input::Line(b) => InputView::Line(b@),
        }
    }
}

/// What the driver does next.
#[derive(Debug)]
pub enum Step {
    /// Issue the request.
    Connect,
    /// Read one line of the body.
    Read,
    /// Wait this many nanoseconds, then report `Slept`.
    Sleep(u64),
    /// Hand this message to the consumer.
    Deliver(Message),
    /// The sequence is over.
    End,
    /// The sequence is over because of this error.
    Fail(EventSourceError),
}

pub enum StepView {
    Connect,
    Read,
    Sleep(int),
    Deliver(MessageView),
    End,
    Fail,
}

impl View for Step {
    type V = StepView;

    open spec fn view(&self) -> StepView {
        match self {
            Step::Connect => StepView::Connect,
            Step::Read => StepView::Read,
            Step::Sleep(n) => StepView::Sleep(*n as int),
            Step::Deliver(m) => StepView::Deliver(m@),
            Step::End => StepView::End,
            Step::Fail(_) => StepView::Fail,
        }
    }
}

pub struct EventSource {
    url: String,
    long_sleep: bool,
    delay_ms: u32,
    last_event_id: Option<Vec<char>>,
    event: Option<Vec<char>>,
    data: Vec<char>,
    phase: Phase,
}

pub struct SourceView {
    pub url: Seq<char>,
    pub long_sleep: bool,
    /// The base wait before a reconnect, in milliseconds.
    pub delay_ms: u32,
    /// The last accepted `id`; it outlives records and reconnects.
    pub last_event_id: Option<Seq<char>>,
    /// The record being read.
    pub event: Option<Seq<char>>,
    pub data: Seq<char>,
    pub phase: Phase,
}

impl View for EventSource {
    type V = SourceView;

    closed spec fn view(&self) -> SourceView {
        SourceView {
            url: self.url@,
            long_sleep: self.long_sleep,
            delay_ms: self.delay_ms,
            last_event_id: opt_chars_view(self.last_event_id),
            event: opt_chars_view(self.event),
            data: self.data@,
            phase: self.phase,
        }
    }
}

/// The effect of one field on the reader's state.
pub open spec fn apply_field(s: SourceView, name: Seq<char>, content: Seq<char>) -> SourceView {
    match field_name_of(name) {
        FieldName::Event => SourceView { event: Some(content), ..s },
        FieldName::Data => SourceView { data: s.data + content.push('\n'), ..s },
        FieldName::Id => if content.contains('\0') {
            s
        } else {
            SourceView { last_event_id: Some(content), ..s }
        },
        FieldName::Retry => match parse_u32_spec(content) {
            Some(ms) => SourceView { delay_ms: ms, ..s },
            None => s,
        },
        FieldName::Other => s,
    }
}

/// The effect of a line other than the dispatch boundary.
pub open spec fn apply_line(s: SourceView, line: Seq<char>) -> SourceView {
    match field_of(line) {
        Some((name, content)) => apply_field(s, name, content),
        None => s,
    }
}

/// The message that a dispatch in state `s` delivers.
pub open spec fn message_of(s: SourceView) -> MessageView {
    MessageView { event: s.event, data: s.data, last_event_id: s.last_event_id }
}

/// `s` with the record being read emptied.
pub open spec fn cleared(s: SourceView) -> SourceView {
    SourceView { event: None, data: Seq::empty(), ..s }
}

/// The wait before a reconnect, in nanoseconds, at the local time `now`.
pub open spec fn wait_of(s: SourceView, now: TimeOfHour) -> int {
    let base = s.delay_ms * NANOS_PER_MILLI;
    if s.long_sleep {
        adaptive_wait(base, now)
    } else {
        base
    }
}

/// The reader as a function: from a state and an input, the next state and
/// the step.
pub open spec fn next(s: SourceView, input: InputView) -> (SourceView, StepView) {
    if s.phase == Phase::Finished {
        (s, StepView::End)
    } else {
        match input {
            InputView::Pull => if s.phase == Phase::Connected {
                (s, StepView::Read)
            } else {
                (s, StepView::Connect)
            },
            InputView::Connected => (SourceView { phase: Phase::Connected, ..s }, StepView::Read),
            InputView::NoContent => (SourceView { phase: Phase::Finished, ..s }, StepView::End),
            InputView::TransportFailure(now) => (
                cleared(SourceView { phase: Phase::Disconnected, ..s }),
                StepView::Sleep(wait_of(s, now)),
            ),
            InputView::Slept => (SourceView { phase: Phase::Disconnected, ..s }, StepView::Connect),
            InputView::Line(b) => if b.len() == 0 {
                (SourceView { phase: Phase::Finished, ..s }, StepView::End)
            } else if !valid_utf8(b) {
                (SourceView { phase: Phase::Finished, ..s }, StepView::Fail)
            } else if is_dispatch(decode_utf8(b)) {
                (cleared(s), StepView::Deliver(message_of(s)))
            } else {
                (apply_line(s, decode_utf8(b)), StepView::Read)
            },
        }
    }
}

fn string_of_opt(o: &Option<Vec<char>>) -> (r: Option<String>)
    ensures
        opt_string_view(r) == opt_chars_view(*o),
{
    match o {
        Some(v) => Some(string_of(v.as_slice())),
        None => None,
    }
}

impl EventSource {
    /// A reader of the stream at `url`, not yet connected; `long_sleep` turns
    /// on the adaptive wait.
    pub fn new(url: &str, long_sleep: bool) -> (r: EventSource)
        ensures
            r@ == (SourceView {
                url: url@,
                long_sleep,
                delay_ms: DEFAULT_DELAY_MS,
                last_event_id: None,
                event: None,
                data: Seq::empty(),
                phase: Phase::Disconnected,
            }),
    {
        EventSource {
            url: String::from_str(url),
            long_sleep,
            delay_ms: DEFAULT_DELAY_MS,
            last_event_id: None,
            event: None,
            data: Vec::new(),
            phase: Phase::Disconnected,
        }
    }

    pub fn url(&self) -> (r: &str)
        ensures
            r@ == self@.url,
    {
        self.url.as_str()
    }

    /// The base wait before a reconnect, in milliseconds.
    pub fn delay_ms(&self) -> (r: u32)
        ensures
            r == self@.delay_ms,
    {
        self.delay_ms
    }

    pub fn last_event_id(&self) -> (r: Option<String>)
        ensures
            opt_string_view(r) == self@.last_event_id,
    {
        string_of_opt(&self.last_event_id)
    }

    pub fn is_finished(&self) -> (r: bool)
        ensures
            r == (self@.phase == Phase::Finished),
    {
        self.phase == Phase::Finished
    }

    /// The adaptive wait, in nanoseconds, at the local time `now`.
    pub fn calculate_delay(&self, now: TimeOfHour) -> (r: u64)
        requires
            now.wf(),
        ensures
            r == adaptive_wait(self@.delay_ms * NANOS_PER_MILLI, now),
    {
        adaptive_delay(self.delay_ms as u64 * NANOS_PER_MILLI, now)
    }

    /// Applies one field, by name and content, to the record and the state
    /// that outlives it.
    pub fn apply_field(&mut self, name: &[char], content: Vec<char>)
        ensures
            final(self)@ == apply_field(old(self)@, name@, content@),
    {
        match field_name(name) {
            FieldName::Event => {
                self.event = Some(content);
            },
            FieldName::Data => {
                let mut content = content;
                let ghost c = content@;
                self.data.append(&mut content);
                self.data.push('\n');
                assert(self.data@ =~= old(self)@.data + c.push('\n'));
            },
            FieldName::Id => {
                if !has_nul(content.as_slice()) {
                    self.last_event_id = Some(content);
                }
            },
            FieldName::Retry => {
                match parse_u32(content.as_slice()) {
                    Some(ms) => {
                        self.delay_ms = ms;
                    },
                    None => {},
                }
            },
            FieldName::Other => {},
        }
    }

    /// Applies one line other than the dispatch boundary to the record.
    fn feed_line(&mut self, line: &[char])
        ensures
            final(self)@ == apply_line(old(self)@, line@),
    {
        match split_field(line) {
            None => {},
            Some((name, content)) => self.apply_field(name.as_slice(), content),
        }
    }

    /// Ends the record: the message it makes, and an empty record.
    fn dispatch(&mut self) -> (m: Message)
        ensures
            m@ == message_of(old(self)@),
            final(self)@ == cleared(old(self)@),
    {
        let event = string_of_opt(&self.event);
        let data = string_of(self.data.as_slice());
        let last_event_id = string_of_opt(&self.last_event_id);
        self.event = None;
        self.data = Vec::new();
        Message { event, data, last_event_id }
    }

    /// The input that reports a transport failure: it holds the local time
    /// where the adaptive wait needs it, and midnight otherwise.
    pub fn transport_failure(&self) -> (r: Input)
        ensures
            r is TransportFailure,
            r->TransportFailure_0.wf(),
            !self@.long_sleep ==> r->TransportFailure_0 == (TimeOfHour {
                minute: 0,
                second: 0,
                nanosecond: 0,
            }),
    {
        if self.long_sleep {
            Input::TransportFailure(local_time_of_hour())
        } else {
            Input::TransportFailure(TimeOfHour { minute: 0, second: 0, nanosecond: 0 })
        }
    }

    /// Takes the driver's report and decides what it does next.
    pub fn step(&mut self, input: Input) -> (r: Step)
        requires
            input is TransportFailure ==> input->TransportFailure_0.wf(),
        ensures
            next(old(self)@, input@) == (final(self)@, r@),
    {
        let ghost s = self@;
        let ghost iv = input@;
        if self.phase == Phase::Finished {
            return Step::End;
        }
        match input {
            Input::Pull => if self.phase == Phase::Connected {
                Step::Read
            } else {
                Step::Connect
            },
            Input::Connected => {
                self.phase = Phase::Connected;
                Step::Read
            },
            Input::NoContent => {
                self.phase = Phase::Finished;
                Step::End
            },
            Input::TransportFailure(now) => {
                let wait = if self.long_sleep {
                    self.calculate_delay(now)
                } else {
                    self.delay_ms as u64 * NANOS_PER_MILLI
                };
                self.phase = Phase::Disconnected;
                self.event = None;
                self.data = Vec::new();
                Step::Sleep(wait)
            },
            Input::Slept => {
                self.phase = Phase::Disconnected;
                Step::Connect
            },
            Input::Line(bytes) => {
                if bytes.len() == 0 {
                    self.phase = Phase::Finished;
                    Step::End
                } else {
                    match string_from_utf8(bytes) {
                        Err(e) => {
                            self.phase = Phase::Finished;
                            Step::Fail(EventSourceError::UtfError(e))
                        },
                        Ok(text) => {
                            let line = chars_of(text.as_str());
                            if line_is_dispatch(line.as_slice()) {
                                Step::Deliver(self.dispatch())
                            } else {
                                self.feed_line(line.as_slice());
                                Step::Read
                            }
                        },
                    }
                }
            },
        }
    }
}

} // verus!
