//! The programs that the commands run, and the commands that run one program
//! and nothing else.

use crate::config::Config;
use crate::session::{
    err_line, out_line, pairs_view, saying, saying_step, silent, silent_step, Action, ActionView,
    Event, EventView, Invocation, InvocationView, RunMode, Step, StepView,
};
use crate::text::{same_text, texts_view};
use vstd::prelude::*;

verus! {

/// The variable that tells the package manager to accept unfree packages.
pub const ALLOW_UNFREE_VARIABLE: &'static str = "NIXPKGS_ALLOW_UNFREE";

/// The argument that lets the package manager read the environment.
pub const IMPURE_FLAG: &'static str = "--impure";

/// The texts of a slice of string slices, each as its characters.
pub open spec fn strs_view(texts: Seq<&str>) -> Seq<Seq<char>> {
    Seq::new(texts.len(), |i: int| texts[i]@)
}

/// What a program is started with where the settings are to hold for it.
///
/// The arguments of the command come first, then the further arguments of
/// the command line. Where unfree packages are allowed, the variable that
/// says so is set to `1`, and `--impure` is the last argument unless the
/// command line gave it already.
pub open spec fn command_line(
    program: Seq<char>,
    args: Seq<Seq<char>>,
    passthrough: Seq<Seq<char>>,
    allow_unfree: bool,
) -> InvocationView {
    InvocationView {
        program,
        args: if allow_unfree && !passthrough.contains(IMPURE_FLAG@) {
            (args + passthrough).push(IMPURE_FLAG@)
        } else {
            args + passthrough
        },
        env: if allow_unfree {
            seq![(ALLOW_UNFREE_VARIABLE@, "1"@)]
        } else {
            Seq::empty()
        },
    }
}

/// What a program is started with where it runs in the background: the
/// arguments of the command, then the further arguments of the command line.
pub open spec fn background_command_line(
    program: Seq<char>,
    args: Seq<Seq<char>>,
    passthrough: Seq<Seq<char>>,
) -> InvocationView {
    InvocationView { program, args: args + passthrough, env: Seq::empty() }
}

/// The arguments of a command with the further arguments of the command line
/// behind them, and whether `--impure` is among the latter.
fn joined_args(args: &[&str], passthrough_args: &[String]) -> (r: (Vec<String>, bool))
    ensures
        texts_view(r.0@) == strs_view(args@) + texts_view(passthrough_args@),
        r.1 == texts_view(passthrough_args@).contains(IMPURE_FLAG@),
{
    let mut all: Vec<String> = Vec::new();
    let mut i: usize = 0;
    while i < args.len()
        invariant
            i <= args.len(),
            texts_view(all@) == strs_view(args@).take(i as int),
        decreases args.len() - i,
    {
        let ghost copied = texts_view(all@);
        all.push(args[i].to_owned());
        i = i + 1;
        proof {
            assert(texts_view(all@) =~= copied.push(args@[i - 1]@));
            assert(strs_view(args@).take(i as int) =~= strs_view(args@).take(i - 1).push(
                args@[i - 1]@,
            ));
        }
    }
    let mut impure = false;
    let mut k: usize = 0;
    proof {
        assert(strs_view(args@).take(args@.len() as int) =~= strs_view(args@));
        assert(texts_view(all@) =~= strs_view(args@) + texts_view(passthrough_args@).take(0));
    }
    while k < passthrough_args.len()
        invariant
            k <= passthrough_args.len(),
            texts_view(all@) == strs_view(args@) + texts_view(passthrough_args@).take(k as int),
            impure == texts_view(passthrough_args@).take(k as int).contains(IMPURE_FLAG@),
        decreases passthrough_args.len() - k,
    {
        let ghost before = texts_view(passthrough_args@).take(k as int);
        let ghost copied = texts_view(all@);
        if same_text(passthrough_args[k].as_str(), IMPURE_FLAG) {
            impure = true;
        }
        all.push(passthrough_args[k].clone());
        k = k + 1;
        proof {
            let now = texts_view(passthrough_args@).take(k as int);
            assert(now =~= before.push(passthrough_args@[k - 1]@));
            assert(now[k - 1] == passthrough_args@[k - 1]@);
            assert(texts_view(all@) =~= copied.push(passthrough_args@[k - 1]@));
            assert(texts_view(all@) =~= strs_view(args@) + now);
            if before.contains(IMPURE_FLAG@) {
                let j = choose|j: int| 0 <= j < before.len() && before[j] == IMPURE_FLAG@;
                assert(now[j] == IMPURE_FLAG@);
            }
            if now.contains(IMPURE_FLAG@) && !impure {
                let j = choose|j: int| 0 <= j < now.len() && now[j] == IMPURE_FLAG@;
                assert(before[j] == IMPURE_FLAG@);
            }
        }
    }
    proof {
        assert(texts_view(passthrough_args@).take(k as int) =~= texts_view(passthrough_args@));
    }
    (all, impure)
}

/// The invocation of a program for which the settings are to hold: see
/// [`command_line`]. The caller waits for such a program.
pub fn run_command(program: &str, args: &[&str], passthrough_args: &[String], config: &Config) -> (r:
    Invocation)
    ensures
        r@ == command_line(
            program@,
            strs_view(args@),
            texts_view(passthrough_args@),
            config.allow_unfree,
        ),
{
    let (mut all, impure) = joined_args(args, passthrough_args);
    let mut env: Vec<(String, String)> = Vec::new();
    if config.allow_unfree {
        env.push((ALLOW_UNFREE_VARIABLE.to_owned(), "1".to_owned()));
        proof {
            assert(pairs_view(env@) =~= seq![(ALLOW_UNFREE_VARIABLE@, "1"@)]);
        }
        if !impure {
            let ghost before = texts_view(all@);
            all.push(IMPURE_FLAG.to_owned());
            proof {
                assert(texts_view(all@) =~= before.push(IMPURE_FLAG@));
            }
        }
    } else {
        proof {
            assert(pairs_view(env@) =~= Seq::<(Seq<char>, Seq<char>)>::empty());
        }
    }
    Invocation { program: program.to_owned(), args: all, env }
}

/// The invocation of a program that runs in the background: see
/// [`background_command_line`]. Such a program is started with its output
/// discarded, and the caller does not wait for it.
pub fn run_command_background(program: &str, args: &[&str], passthrough_args: &[String]) -> (r:
    Invocation)
    ensures
        r@ == background_command_line(
            program@,
            strs_view(args@),
            texts_view(passthrough_args@),
        ),
{
    let (all, _) = joined_args(args, passthrough_args);
    let env: Vec<(String, String)> = Vec::new();
    proof {
        assert(pairs_view(env@) =~= Seq::<(Seq<char>, Seq<char>)>::empty());
    }
    Invocation { program: program.to_owned(), args: all, env }
}

/// A command that runs one program, under way.
#[derive(Debug, Clone, PartialEq, Eq)]
pub struct CommandSession {
    /// What the user is told where the program cannot be started. It plays
    /// no part for a program in the background.
    pub failure: String,
    /// Whether the program runs in the background.
    pub background: bool,
    /// Whether the session has asked for the exit.
    pub finished: bool,
}

/// A [`CommandSession`] as the specifications see it.
pub struct CommandSessionView {
    pub failure: Seq<char>,
    pub background: bool,
    pub finished: bool,
}

impl View for CommandSession {
    type V = CommandSessionView;

    open spec fn view(&self) -> CommandSessionView {
        CommandSessionView {
            failure: self.failure@,
            background: self.background,
            finished: self.finished,
        }
    }
}

/// The exit code of a command whose program ended with `code`: the code of
/// the program, or 1 where it has none because a signal ended it.
pub open spec fn passed_on(code: Option<i32>) -> i32 {
    match code {
        Some(code) => code,
        None => 1,
    }
}

/// The first step of a command that runs a program and waits for it, and the
/// session that waits for the answer.
pub open spec fn foreground(invocation: InvocationView, failure: Seq<char>) -> (
    CommandSessionView,
    StepView,
) {
    (
        CommandSessionView { failure, background: false, finished: false },
        silent(ActionView::Run { invocation, mode: RunMode::Wait }),
    )
}

/// The first step of a command that starts a program in the background, and
/// the session that waits for the answer.
pub open spec fn background(invocation: InvocationView) -> (CommandSessionView, StepView) {
    (
        CommandSessionView { failure: Seq::empty(), background: true, finished: false },
        silent(ActionView::Run { invocation, mode: RunMode::Detach }),
    )
}

/// The only step of a command that is refused before it runs anything: a
/// line on standard error and exit code 1.
pub open spec fn refused(reason: Seq<char>) -> (CommandSessionView, StepView) {
    (
        CommandSessionView { failure: Seq::empty(), background: false, finished: true },
        saying(err_line(reason), ActionView::Exit { code: 1 }),
    )
}

/// The step that follows an event: the exit, in every case.
///
/// A program that was waited for gives the command its exit code, or 1 where
/// it has none. Where it could not be started, the user is told so and the
/// exit code is 1. Of a program in the background the user is told whether
/// it was started, and the exit code is 0 in both cases. A session that has
/// asked for the exit already answers with exit code 1.
pub open spec fn command_next(session: CommandSessionView, event: EventView) -> (
    CommandSessionView,
    StepView,
) {
    let finished = CommandSessionView { finished: true, ..session };
    if session.finished {
        (
            finished,
            saying(
                err_line("unexpected reply to the pending action"@),
                ActionView::Exit { code: 1 },
            ),
        )
    } else if session.background {
        match event {
            EventView::Done => (
                finished,
                saying(out_line("Process started in background"@), ActionView::Exit { code: 0 }),
            ),
            _ => (
                finished,
                saying(
                    err_line("Failed to start background process"@),
                    ActionView::Exit { code: 0 },
                ),
            ),
        }
    } else {
        match event {
            EventView::Exited { success, code, output } => (
                finished,
                silent(ActionView::Exit { code: passed_on(code) }),
            ),
            _ => (finished, saying(err_line(session.failure), ActionView::Exit { code: 1 })),
        }
    }
}

impl CommandSession {
    /// Starts a command that runs `invocation` and waits for it; `failure`
    /// is what the user is told where the program cannot be started.
    pub fn foreground(invocation: Invocation, failure: &str) -> (r: (CommandSession, Step))
        ensures
            (r.0@, r.1@) == foreground(invocation@, failure@),
    {
        (
            CommandSession { failure: failure.to_owned(), background: false, finished: false },
            silent_step(Action::Run { invocation, mode: RunMode::Wait }),
        )
    }

    /// Starts a command that starts `invocation` in the background.
    pub fn background(invocation: Invocation) -> (r: (CommandSession, Step))
        ensures
            (r.0@, r.1@) == background(invocation@),
    {
        (
            CommandSession { failure: String::new(), background: true, finished: false },
            silent_step(Action::Run { invocation, mode: RunMode::Detach }),
        )
    }

    /// Refuses a command before it runs anything.
    pub fn refused(reason: &str) -> (r: (CommandSession, Step))
        ensures
            (r.0@, r.1@) == refused(reason@),
    {
        (
            CommandSession { failure: String::new(), background: false, finished: true },
            saying_step(reason.to_owned(), true, Action::Exit { code: 1 }),
        )
    }

    /// Whether the session has asked for the exit.
    pub fn is_finished(&self) -> (b: bool)
        ensures
            b == self.finished,
    {
        self.finished
    }

    /// Takes the answer to the action of the last step and gives the next
    /// step: see [`command_next`].
    pub fn advance(self, event: Event) -> (r: (CommandSession, Step))
        ensures
            (r.0@, r.1@) == command_next(self@, event@),
    {
        let background = self.background;
        let was_finished = self.finished;
        let failure = self.failure.clone();
        let finished = CommandSession { failure: self.failure, background, finished: true };
        if was_finished {
            let step = saying_step(
                "unexpected reply to the pending action".to_owned(),
                true,
                Action::Exit { code: 1 },
            );
            (finished, step)
        } else if background {
            match event {
                Event::Done => (
                    finished,
                    saying_step(
                        "Process started in background".to_owned(),
                        false,
                        Action::Exit { code: 0 },
                    ),
                ),
                _ => (
                    finished,
                    saying_step(
                        "Failed to start background process".to_owned(),
                        true,
                        Action::Exit { code: 0 },
                    ),
                ),
            }
        } else {
            match event {
                Event::Exited { success: _, code, output: _ } => {
                    let code = match code {
                        Some(code) => code,
                        None => 1,
                    };
                    (finished, silent_step(Action::Exit { code }))
                },
                _ => (finished, saying_step(failure, true, Action::Exit { code: 1 })),
            }
        }
    }
}

} // verus!
