//! What a command asks of its surroundings, and what they answer.
//!
//! The library touches no file and starts no process. A command is a session:
//! it hands out a [`Step`], which holds lines to print and one [`Action`]; the
//! caller prints the lines, performs the action and hands back an [`Event`],
//! for which the session gives the next step, until the action is
//! [`Action::Exit`].

use crate::text::texts_view;
use vstd::prelude::*;

verus! {

/// A line for the user: on standard output, or on standard error where
/// `error` is set.
#[derive(Debug, Clone, PartialEq, Eq)]
pub struct Line {
    pub text: String,
    pub error: bool,
}

/// A [`Line`] as the specifications see it.
pub struct LineView {
    pub text: Seq<char>,
    pub error: bool,
}

impl View for Line {
    type V = LineView;

    open spec fn view(&self) -> LineView {
        LineView { text: self.text@, error: self.error }
    }
}

/// The lines of a vector, each as the specifications see it.
pub open spec fn lines_view(lines: Seq<Line>) -> Seq<LineView> {
    Seq::new(lines.len(), |i: int| lines[i]@)
}

/// The pairs of a vector of variables, each as characters.
pub open spec fn pairs_view(pairs: Seq<(String, String)>) -> Seq<(Seq<char>, Seq<char>)> {
    Seq::new(pairs.len(), |i: int| (pairs[i].0@, pairs[i].1@))
}

/// A program to start, with its arguments and the variables to set in its
/// environment.
#[derive(Debug, Clone, PartialEq, Eq)]
pub struct Invocation {
    pub program: String,
    pub args: Vec<String>,
    pub env: Vec<(String, String)>,
}

/// An [`Invocation`] as the specifications see it.
pub struct InvocationView {
    pub program: Seq<char>,
    pub args: Seq<Seq<char>>,
    pub env: Seq<(Seq<char>, Seq<char>)>,
}

impl View for Invocation {
    type V = InvocationView;

    open spec fn view(&self) -> InvocationView {
        InvocationView {
            program: self.program@,
            args: texts_view(self.args@),
            env: pairs_view(self.env@),
        }
    }
}

/// How a program is run.
#[derive(Debug, Clone, Copy, PartialEq, Eq, Structural)]
pub enum RunMode {
    /// The program writes to the caller's output; the caller waits for it.
    Wait,
    /// The caller waits for the program and collects what it writes to its
    /// standard output.
    Capture,
    /// The program is started with its output discarded, and not waited for.
    Detach,
}

/// What the caller is asked to do.
#[derive(Debug, Clone, PartialEq, Eq)]
pub enum Action {
    /// Find out whether there is a file at `path`. The answer is
    /// [`Event::Probed`].
    Probe { path: String },
    /// Read the whole text of the file at `path`. The answer is
    /// [`Event::Content`], or [`Event::Failed`].
    Read { path: String },
    /// Put `content` in place of whatever the file at `path` holds, creating
    /// the file if need be. The answer is [`Event::Done`], or
    /// [`Event::Failed`]. The sessions take a file that could not be written
    /// to hold what it held before; a caller that writes to a new file and
    /// then gives it the name makes sure of that.
    Write { path: String, content: String },
    /// Run a program. The answer is [`Event::Exited`] once it has ended, or
    /// [`Event::Done`] once it has started where the mode is
    /// [`RunMode::Detach`], or [`Event::Failed`] where it could not be
    /// started.
    Run { invocation: Invocation, mode: RunMode },
    /// End with this exit code. There is no answer.
    Exit { code: i32 },
}

/// An [`Action`] as the specifications see it.
pub enum ActionView {
    Probe { path: Seq<char> },
    Read { path: Seq<char> },
    Write { path: Seq<char>, content: Seq<char> },
    Run { invocation: InvocationView, mode: RunMode },
    Exit { code: i32 },
}

impl View for Action {
    type V = ActionView;

    open spec fn view(&self) -> ActionView {
        match self {
            Action::Probe { path } => ActionView::Probe { path: path@ },
            Action::Read { path } => ActionView::Read { path: path@ },
            Action::Write { path, content } => ActionView::Write {
                path: path@,
                content: content@,
            },
            Action::Run { invocation, mode } => ActionView::Run {
                invocation: invocation@,
                mode: *mode,
            },
            Action::Exit { code } => ActionView::Exit { code: *code },
        }
    }
}

/// What came of an action.
#[derive(Debug, Clone, PartialEq, Eq)]
pub enum Event {
    /// Whether the file is there.
    Probed { exists: bool },
    /// The text of the file.
    Content { text: String },
    /// The file is written, or the detached program is started.
    Done,
    /// The program has ended: whether with success, its exit code if it has
    /// one, and what it wrote to its standard output where that was
    /// collected.
    Exited { success: bool, code: Option<i32>, output: String },
    /// The action could not be carried out, for the reason that the system
    /// gave.
    Failed { reason: String },
}

/// An [`Event`] as the specifications see it.
pub enum EventView {
    Probed { exists: bool },
    Content { text: Seq<char> },
    Done,
    Exited { success: bool, code: Option<i32>, output: Seq<char> },
    Failed { reason: Seq<char> },
}

impl View for Event {
    type V = EventView;

    open spec fn view(&self) -> EventView {
        match self {
            Event::Probed { exists } => EventView::Probed { exists: *exists },
            Event::Content { text } => EventView::Content { text: text@ },
            Event::Done => EventView::Done,
            Event::Exited { success, code, output } => EventView::Exited {
                success: *success,
                code: *code,
                output: output@,
            },
            Event::Failed { reason } => EventView::Failed { reason: reason@ },
        }
    }
}

/// Lines to print, and then an action to perform.
#[derive(Debug, Clone, PartialEq, Eq)]
pub struct Step {
    pub output: Vec<Line>,
    pub action: Action,
}

/// A [`Step`] as the specifications see it.
pub struct StepView {
    pub output: Seq<LineView>,
    pub action: ActionView,
}

impl View for Step {
    type V = StepView;

    open spec fn view(&self) -> StepView {
        StepView { output: lines_view(self.output@), action: self.action@ }
    }
}

/// A line on standard output.
pub open spec fn out_line(text: Seq<char>) -> LineView {
    LineView { text, error: false }
}

/// A line on standard error.
pub open spec fn err_line(text: Seq<char>) -> LineView {
    LineView { text, error: true }
}

/// The step that performs `action` without a word.
pub open spec fn silent(action: ActionView) -> StepView {
    StepView { output: Seq::empty(), action }
}

/// The step that prints one line and performs `action`.
pub open spec fn saying(line: LineView, action: ActionView) -> StepView {
    StepView { output: seq![line], action }
}

/// The step that performs `action` without a word.
pub fn silent_step(action: Action) -> (step: Step)
    ensures
        step@ == silent(action@),
{
    let step = Step { output: Vec::new(), action };
    proof {
        assert(lines_view(step.output@) =~= Seq::<LineView>::empty());
    }
    step
}

/// The step that prints `text`, on standard error where `error` is set, and
/// performs `action`.
pub fn saying_step(text: String, error: bool, action: Action) -> (step: Step)
    ensures
        step@ == saying(LineView { text: text@, error }, action@),
{
    let mut output: Vec<Line> = Vec::new();
    output.push(Line { text, error });
    let step = Step { output, action };
    proof {
        assert(lines_view(step.output@) =~= seq![LineView { text: text@, error }]);
    }
    step
}

/// The step that prints two lines and performs `action`.
pub fn saying_both_step(first: Line, second: Line, action: Action) -> (step: Step)
    ensures
        step@ == (StepView { output: seq![first@, second@], action: action@ }),
{
    let mut output: Vec<Line> = Vec::new();
    output.push(first);
    output.push(second);
    let step = Step { output, action };
    proof {
        assert(lines_view(step.output@) =~= seq![first@, second@]);
    }
    step
}

/// `a` and `b` put together.
pub fn concat2(a: &str, b: &str) -> (r: String)
    ensures
        r@ == a@ + b@,
{
    let mut r = String::new();
    r.append(a);
    r.append(b);
    r
}

/// `a`, `b` and `c` put together.
pub fn concat3(a: &str, b: &str, c: &str) -> (r: String)
    ensures
        r@ == a@ + b@ + c@,
{
    let mut r = String::new();
    r.append(a);
    r.append(b);
    r.append(c);
    r
}

} // verus!
