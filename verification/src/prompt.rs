//! The course of one prompt.
//!
//! A prompt is an exchange with the console in three requests: write the
//! text, flush the stream, read a line. The host carries out each request
//! and reports an [`Event`]; [`Prompt::next`] answers with the [`Step`] that
//! follows. The exchange ends in [`Step::Return`] with the line that was
//! read, its terminator stripped, or in [`Step::Abort`] with a message that
//! names what failed. A failed request is never tried again and never
//! passed over.

use vstd::prelude::*;
use vstd::string::*;
use crate::line::{
    ends_with, lemma_carriage_return_newline_is_stripped, lemma_newline_is_stripped,
    lemma_unterminated_is_unchanged, strip_terminator, stripped,
};

verus! {

/// The stream that a prompt is written to. The line is read from standard
/// input whichever it is.
#[derive(Clone, Copy, Debug, PartialEq, Eq, Structural)]
pub enum Stream {
    Stdout,
    Stderr,
}

/// What the host is asked to do, or what the prompt has come to.
#[derive(Debug, PartialEq, Eq)]
pub enum Step {
    /// Write this text to the prompt's stream, as it is.
    Write(String),
    /// Flush the prompt's stream.
    Flush,
    /// Read one line from standard input.
    ReadLine,
    /// The prompt is over: this is the line, without its terminator.
    Return(String),
    /// The prompt is over: a request failed, and this message says which.
    Abort(String),
}

/// How a request went.
#[derive(Debug, PartialEq, Eq)]
pub enum Event {
    /// The write or the flush was carried out.
    Completed,
    /// The request could not be carried out.
    Failed,
    /// The read was carried out and handed this over: the line with its
    /// terminator, or what was left of the input, which may be nothing.
    Line(String),
}

/// A [`Step`] with its texts as sequences of characters.
pub enum StepView {
    Write(Seq<char>),
    Flush,
    ReadLine,
    Return(Seq<char>),
    Abort(Seq<char>),
}

/// An [`Event`] with its line as a sequence of characters.
pub enum EventView {
    Completed,
    Failed,
    Line(Seq<char>),
}

impl View for Step {
    type V = StepView;

    open spec fn view(&self) -> StepView {
        match self {
            Step::Write(text) => StepView::Write(text@),
            Step::Flush => StepView::Flush,
            Step::ReadLine => StepView::ReadLine,
            Step::Return(line) => StepView::Return(line@),
            Step::Abort(message) => StepView::Abort(message@),
        }
    }
}

impl View for Event {
    type V = EventView;

    open spec fn view(&self) -> EventView {
        match self {
            Event::Completed => EventView::Completed,
            Event::Failed => EventView::Failed,
            Event::Line(raw) => EventView::Line(raw@),
        }
    }
}

/// The characters that are written for a prompt `text`: the text itself,
/// followed by `'\n'` where the prompt ends its line.
pub open spec fn rendered(text: Seq<char>, newline: bool) -> Seq<char> {
    if newline {
        text.push('\n')
    } else {
        text
    }
}

/// The message for a write or a flush that failed.
pub open spec fn write_failure_text(dest: Stream) -> Seq<char> {
    match dest {
        Stream::Stdout => "failed writing to stdout"@,
        Stream::Stderr => "failed writing to stderr"@,
    }
}

/// The message for a read that failed. It is named after the stream of the
/// prompt, as the prompt itself is.
pub open spec fn read_failure_text(dest: Stream) -> Seq<char> {
    match dest {
        Stream::Stdout => "failed reading from stdin"@,
        Stream::Stderr => "failed reading from stderr"@,
    }
}

/// Composes what is written for a prompt.
pub fn render(text: &str, newline: bool) -> (out: String)
    ensures
        out@ == rendered(text@, newline),
{
    let mut out = text.to_owned();
    if newline {
        proof {
            reveal_strlit("\n");
        }
        out.append("\n");
        assert(out@ =~= text@.push('\n'));
    }
    out
}

/// The message for a write or a flush to `dest` that failed.
pub fn write_failure(dest: Stream) -> (message: String)
    ensures
        message@ == write_failure_text(dest),
{
    match dest {
        Stream::Stdout => "failed writing to stdout".to_owned(),
        Stream::Stderr => "failed writing to stderr".to_owned(),
    }
}

/// The message for a failed read under a prompt on `dest`.
pub fn read_failure(dest: Stream) -> (message: String)
    ensures
        message@ == read_failure_text(dest),
{
    match dest {
        Stream::Stdout => "failed reading from stdin".to_owned(),
        Stream::Stderr => "failed reading from stderr".to_owned(),
    }
}

/// One of the four prompts: on standard output or standard error, with the
/// line left open after the text or ended.
#[derive(Clone, Copy, Debug, PartialEq, Eq, Structural)]
pub struct Prompt {
    /// Where the text is written.
    pub dest: Stream,
    /// Whether `'\n'` is written after the text.
    pub newline: bool,
}

impl Prompt {
    /// The first step of a prompt with this text.
    pub open spec fn opening(self, text: Seq<char>) -> StepView {
        StepView::Write(rendered(text, self.newline))
    }

    /// The step that follows `step` once the host has reported `event`.
    ///
    /// A write that was carried out is followed by the flush, the flush by
    /// the read, and the read by the return of the stripped line. A request
    /// that failed is followed by the abort. An event that does not answer
    /// the request leaves it standing, and nothing follows the end.
    pub open spec fn following(self, step: StepView, event: EventView) -> StepView {
        match (step, event) {
            (StepView::Write(_), EventView::Completed) => StepView::Flush,
            (StepView::Write(_), EventView::Failed) => StepView::Abort(
                write_failure_text(self.dest),
            ),
            (StepView::Flush, EventView::Completed) => StepView::ReadLine,
            (StepView::Flush, EventView::Failed) => StepView::Abort(write_failure_text(self.dest)),
            (StepView::ReadLine, EventView::Line(raw)) => StepView::Return(stripped(raw)),
            (StepView::ReadLine, EventView::Failed) => StepView::Abort(
                read_failure_text(self.dest),
            ),
            _ => step,
        }
    }

    /// What a prompt with this text comes to when its write and its flush
    /// are carried out and the read hands over `raw`.
    pub open spec fn answered(self, text: Seq<char>, raw: Seq<char>) -> StepView {
        self.following(
            self.following(
                self.following(self.opening(text), EventView::Completed),
                EventView::Completed,
            ),
            EventView::Line(raw),
        )
    }

    /// The prompt on `dest`, with or without `'\n'` after its text.
    pub fn new(dest: Stream, newline: bool) -> (p: Prompt)
        ensures
            p == (Prompt { dest, newline }),
    {
        Prompt { dest, newline }
    }

    /// The prompt on standard output that leaves its line open.
    pub fn prompt() -> (p: Prompt)
        ensures
            p == (Prompt { dest: Stream::Stdout, newline: false }),
    {
        Prompt { dest: Stream::Stdout, newline: false }
    }

    /// The prompt on standard output that ends its line.
    pub fn promptln() -> (p: Prompt)
        ensures
            p == (Prompt { dest: Stream::Stdout, newline: true }),
    {
        Prompt { dest: Stream::Stdout, newline: true }
    }

    /// The prompt on standard error that leaves its line open.
    pub fn eprompt() -> (p: Prompt)
        ensures
            p == (Prompt { dest: Stream::Stderr, newline: false }),
    {
        Prompt { dest: Stream::Stderr, newline: false }
    }

    /// The prompt on standard error that ends its line.
    pub fn epromptln() -> (p: Prompt)
        ensures
            p == (Prompt { dest: Stream::Stderr, newline: true }),
    {
        Prompt { dest: Stream::Stderr, newline: true }
    }

    /// Begins a prompt: asks for `text` to be written, followed by `'\n'`
    /// where the prompt ends its line.
    pub fn start(&self, text: &str) -> (step: Step)
        ensures
            step@ == self.opening(text@),
    {
        Step::Write(render(text, self.newline))
    }

    /// Goes on with a prompt: takes the step that the host was given and
    /// the event that it reports, and gives the step that follows.
    pub fn next(&self, step: Step, event: Event) -> (out: Step)
        ensures
            out@ == self.following(step@, event@),
    {
        match step {
            Step::Write(text) => match event {
                Event::Completed => Step::Flush,
                Event::Failed => Step::Abort(write_failure(self.dest)),
                Event::Line(_) => Step::Write(text),
            },
            Step::Flush => match event {
                Event::Completed => Step::ReadLine,
                Event::Failed => Step::Abort(write_failure(self.dest)),
                Event::Line(_) => Step::Flush,
            },
            Step::ReadLine => match event {
                Event::Completed => Step::ReadLine,
                Event::Failed => Step::Abort(read_failure(self.dest)),
                Event::Line(raw) => Step::Return(strip_terminator(raw.as_str()).to_owned()),
            },
            Step::Return(line) => Step::Return(line),
            Step::Abort(message) => Step::Abort(message),
        }
    }
}

/// `step` ends a prompt.
pub open spec fn is_end(step: StepView) -> bool {
    step is Return || step is Abort
}

/// The order of a prompt: the text is written first, with `'\n'` behind it
/// only where the prompt ends its line; the flush follows the write, the
/// read follows the flush, and what the read hands over is returned
/// stripped.
pub proof fn lemma_prompt_order(p: Prompt, text: Seq<char>, raw: Seq<char>)
    ensures
        p.opening(text) == StepView::Write(if p.newline { text + seq!['\n'] } else { text }),
        p.following(p.opening(text), EventView::Completed) == StepView::Flush,
        p.following(StepView::Flush, EventView::Completed) == StepView::ReadLine,
        p.following(StepView::ReadLine, EventView::Line(raw)) == StepView::Return(stripped(raw)),
        p.answered(text, raw) == StepView::Return(stripped(raw)),
{
    assert(text.push('\n') =~= text + seq!['\n']);
}

/// A request that fails ends the prompt at once, with the message for
/// writing where the write or the flush failed and the message for reading
/// where the read did.
pub proof fn lemma_failure_is_fatal(p: Prompt, step: StepView)
    requires
        !is_end(step),
    ensures
        p.following(step, EventView::Failed) == StepView::Abort(
            if step is ReadLine {
                read_failure_text(p.dest)
            } else {
                write_failure_text(p.dest)
            },
        ),
{
}

/// Nothing follows the end of a prompt: whatever is reported after it, the
/// line that was returned, or the message, stays.
pub proof fn lemma_end_is_final(p: Prompt, step: StepView, event: EventView)
    requires
        is_end(step),
    ensures
        p.following(step, event) == step,
{
}

/// Every prompt hands back a line that ends in `'\n'` alone without it: for
/// every `l` that does not itself end in `'\r'`, a read that hands over `l`
/// followed by `'\n'` makes the prompt return `l`.
pub proof fn lemma_prompt_strips_newline(p: Prompt, text: Seq<char>, l: Seq<char>)
    requires
        !ends_with(l, '\r'),
    ensures
        p.answered(text, l + seq!['\n']) == StepView::Return(l),
{
    lemma_newline_is_stripped(l);
}

/// Every prompt hands back a line that ends in `'\r'` and `'\n'` without
/// either: for every `l`, a read that hands over `l` followed by `'\r'` and
/// `'\n'` makes the prompt return `l`.
pub proof fn lemma_prompt_strips_carriage_return_newline(
    p: Prompt,
    text: Seq<char>,
    l: Seq<char>,
)
    ensures
        p.answered(text, l + seq!['\r', '\n']) == StepView::Return(l),
{
    lemma_carriage_return_newline_is_stripped(l);
}

/// Every prompt hands back unchanged what the end of the input cut short:
/// a read that hands over an `l` that does not end in `'\n'` makes the
/// prompt return `l`.
pub proof fn lemma_prompt_keeps_unterminated(p: Prompt, text: Seq<char>, l: Seq<char>)
    requires
        !ends_with(l, '\n'),
    ensures
        p.answered(text, l) == StepView::Return(l),
{
    lemma_unterminated_is_unchanged(l);
}

} // verus!
