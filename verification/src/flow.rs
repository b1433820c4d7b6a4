//! What a command does, as a state machine: the library decides which
//! request to send and what to print; the caller performs it and reports back.
use vstd::prelude::*;
use crate::json::{json_pretty_text, json_text, json_to_pretty_string, json_to_string, Json, JsonView};
use crate::protocol::MarionetteError;

verus! {

broadcast use vstd::string::group_string_axioms;

/// A Marionette command and its parameters.
pub struct Request {
    pub command: String,
    pub params: Json,
}

pub struct RequestView {
    pub command: Seq<char>,
    pub params: JsonView,
}

impl View for Request {
    type V = RequestView;

    open spec fn view(&self) -> RequestView {
        RequestView { command: self.command@, params: self.params@ }
    }
}

impl Request {
    pub fn new(command: &str, params: Json) -> (r: Request)
        ensures
            r@ == (RequestView { command: command@, params: params@ }),
    {
        Request { command: command.to_string(), params }
    }
}

/// The view of an error.
pub enum ErrorView {
    Remote(Seq<char>, Seq<char>),
    Transport(Seq<char>),
    Failed(Seq<char>),
    Caused(Seq<char>, Seq<char>),
}

pub open spec fn error_view(e: MarionetteError) -> ErrorView {
    match e {
        MarionetteError::Remote { error_type, message } => ErrorView::Remote(error_type@, message@),
        MarionetteError::Transport(m) => ErrorView::Transport(m@),
        MarionetteError::Failed(m) => ErrorView::Failed(m@),
        MarionetteError::Caused { context, cause } => ErrorView::Caused(context@, cause@),
    }
}

/// Something to print.
pub enum Output {
    /// A line of text.
    Line(String),
    /// A JSON value, compact or pretty.
    Json { value: Json, pretty: bool },
}

pub enum OutputView {
    Line(Seq<char>),
    Json(JsonView, bool),
}

impl View for Output {
    type V = OutputView;

    open spec fn view(&self) -> OutputView {
        match self {
            Output::Line(s) => OutputView::Line(s@),
            Output::Json { value, pretty } => OutputView::Json(value@, *pretty),
        }
    }
}

/// The text printed for an output: the line, or the JSON text of the value,
/// indented when `pretty`.
pub open spec fn output_text(o: OutputView) -> Seq<char> {
    match o {
        OutputView::Line(l) => l,
        OutputView::Json(v, pretty) => if pretty {
            json_pretty_text(v)
        } else {
            json_text(v)
        },
    }
}

impl Output {
    /// The text to print.
    pub fn text(&self) -> (r: String)
        ensures
            r@ == output_text(self@),
    {
        match self {
            Output::Line(l) => l.clone(),
            Output::Json { value, pretty } => if *pretty {
                json_to_pretty_string(value)
            } else {
                json_to_string(value)
            },
        }
    }
}

/// What the caller does after printing.
pub enum Next {
    /// Send the request and report the reply.
    Send(Request),
    /// Sleep this many milliseconds and report the time since the wait began.
    Sleep(u64),
    /// Write the bytes to the file and report whether that worked.
    WriteFile { path: String, bytes: Vec<u8> },
    /// The command is done.
    Finish,
    /// The command failed.
    Fail(MarionetteError),
}

pub enum NextView {
    Send(RequestView),
    Sleep(u64),
    WriteFile(Seq<char>, Seq<u8>),
    Finish,
    Fail(ErrorView),
}

impl View for Next {
    type V = NextView;

    open spec fn view(&self) -> NextView {
        match self {
            Next::Send(r) => NextView::Send(r@),
            Next::Sleep(ms) => NextView::Sleep(*ms),
            Next::WriteFile { path, bytes } => NextView::WriteFile(path@, bytes@),
            Next::Finish => NextView::Finish,
            Next::Fail(e) => NextView::Fail(error_view(*e)),
        }
    }
}

/// One step of a command: lines to print, then what to do.
pub struct Step {
    pub output: Vec<Output>,
    pub next: Next,
}

pub struct StepView {
    pub output: Seq<OutputView>,
    pub next: NextView,
}

impl View for Step {
    type V = StepView;

    open spec fn view(&self) -> StepView {
        StepView { output: self.output@.map_values(|o: Output| o@), next: self.next@ }
    }
}

/// What the caller reports back.
pub enum Event {
    /// The command starts.
    Begin,
    /// The reply to the request that was sent.
    Reply(Result<Json, MarionetteError>),
    /// The sleep is over; time since the wait began, in nanoseconds.
    Woke(u128),
    /// The file was written, or why not.
    Written(Result<(), MarionetteError>),
}

/// A step that prints nothing.
pub open spec fn quiet(next: NextView) -> StepView {
    StepView { output: Seq::empty(), next }
}

/// A step that prints one line and then does `next`.
pub open spec fn say(line: Seq<char>, next: NextView) -> StepView {
    StepView { output: seq![OutputView::Line(line)], next }
}

/// The step taken on an event that the command does not expect.
pub open spec fn unexpected_step() -> StepView {
    quiet(NextView::Fail(ErrorView::Failed("unexpected event"@)))
}

/// A step that prints nothing and then does `next`.
pub fn quiet_step(next: Next) -> (r: Step)
    ensures
        r@ == quiet(next@),
{
    let r = Step { output: Vec::new(), next };
    assert(r@.output =~= Seq::<OutputView>::empty());
    r
}

/// A step that prints one line and then does `next`.
pub fn say_step(line: String, next: Next) -> (r: Step)
    ensures
        r@ == say(line@, next@),
{
    let mut output: Vec<Output> = Vec::new();
    output.push(Output::Line(line));
    let r = Step { output, next };
    assert(r@.output =~= seq![OutputView::Line(line@)]);
    r
}

/// The step taken on an event that the command does not expect.
pub fn unexpected() -> (r: Step)
    ensures
        r@ == unexpected_step(),
{
    quiet_step(Next::Fail(MarionetteError::Failed("unexpected event".to_string())))
}

/// A failure with a message of the command's own.
pub fn fail_with(message: &str) -> (r: Step)
    ensures
        r@ == quiet(NextView::Fail(ErrorView::Failed(message@))),
{
    quiet_step(Next::Fail(MarionetteError::Failed(message.to_string())))
}

// ---------------------------------------------------------------------------
// Commands that send fixed requests and then print a fixed line
// ---------------------------------------------------------------------------

/// A command that sends its requests one after another, stopping at the first
/// error, and prints `message` when all succeeded.
pub struct SimpleFlow {
    pub pending: Vec<Request>,
    pub started: bool,
    pub message: String,
}

impl SimpleFlow {
    pub fn new(requests: Vec<Request>, message: String) -> (r: SimpleFlow)
        ensures
            r.pending == requests,
            !r.started,
            r.message == message,
    {
        SimpleFlow { pending: requests, started: false, message }
    }

    pub fn step(self, event: Event) -> (r: (SimpleFlow, Step))
        ensures
            r.0.message == self.message,
            r.0.started,
            match event {
                Event::Begin => if !self.started && self.pending@.len() > 0 {
                    r.0.pending@ == self.pending@.drop_first() && r.1@ == quiet(
                        NextView::Send(self.pending@[0]@),
                    )
                } else {
                    r.1@ == unexpected_step()
                },
                Event::Reply(Ok(_)) => if !self.started {
                    r.1@ == unexpected_step()
                } else if self.pending@.len() > 0 {
                    r.0.pending@ == self.pending@.drop_first() && r.1@ == quiet(
                        NextView::Send(self.pending@[0]@),
                    )
                } else {
                    r.1@ == say(self.message@, NextView::Finish)
                },
                Event::Reply(Err(e)) => if self.started {
                    r.1@ == quiet(NextView::Fail(error_view(e)))
                } else {
                    r.1@ == unexpected_step()
                },
                _ => r.1@ == unexpected_step(),
            },
    {
        let SimpleFlow { mut pending, started, message } = self;
        match event {
            Event::Begin => {
                if !started && pending.len() > 0 {
                    let first = pending.remove(0);
                    assert(pending@ =~= self.pending@.drop_first());
                    (SimpleFlow { pending, started: true, message }, quiet_step(Next::Send(first)))
                } else {
                    (SimpleFlow { pending, started: true, message }, unexpected())
                }
            },
            Event::Reply(Ok(_)) => {
                if !started {
                    (SimpleFlow { pending, started: true, message }, unexpected())
                } else if pending.len() > 0 {
                    let first = pending.remove(0);
                    assert(pending@ =~= self.pending@.drop_first());
                    (SimpleFlow { pending, started: true, message }, quiet_step(Next::Send(first)))
                } else {
                    let line = message.clone();
                    (SimpleFlow { pending, started: true, message }, say_step(line, Next::Finish))
                }
            },
            Event::Reply(Err(e)) => {
                if started {
                    (SimpleFlow { pending, started: true, message }, quiet_step(Next::Fail(e)))
                } else {
                    (SimpleFlow { pending, started: true, message }, unexpected())
                }
            },
            _ => (SimpleFlow { pending, started: true, message }, unexpected()),
        }
    }
}

} // verus!
