use vstd::prelude::*;
use crate::text::owned;

verus! {

/// A program to run: its name, its arguments, and the file (if any) that
/// receives what it writes to standard output.
#[derive(Clone, Debug, PartialEq, Eq)]
pub struct Cmd {
    pub program: String,
    pub args: Vec<String>,
    pub stdout_to: Option<String>,
}

/// The mathematical value of a [`Cmd`].
pub struct CmdSpec {
    pub program: Seq<char>,
    pub args: Seq<Seq<char>>,
    pub stdout_to: Option<Seq<char>>,
}

impl View for Cmd {
    type V = CmdSpec;

    open spec fn view(&self) -> CmdSpec {
        CmdSpec {
            program: self.program@,
            args: self.args.deep_view(),
            stdout_to: self.stdout_to.deep_view(),
        }
    }
}

/// When a step is carried out. A probe is named by the index of the step
/// that made it.
#[derive(Clone, Copy, Debug, PartialEq, Eq)]
pub enum Guard {
    /// Always.
    Always,
    /// Only when the probe made at this step found its path.
    IfFound(usize),
    /// Only when the probe made at this step did not find its path.
    IfMissing(usize),
    /// Only when the working directory has no textual form.
    IfNoCwd,
}

/// What a failed command makes of the whole procedure.
#[derive(Clone, Debug, PartialEq, Eq)]
pub enum OnFail<S> {
    /// Nothing: the procedure goes on.
    Ignore,
    /// It fails with this text followed by what the command wrote to standard error.
    Report(S),
    /// It fails with exactly this text.
    Say(S),
}

/// One thing that a procedure does.
#[derive(Clone, Debug, PartialEq, Eq)]
pub enum Kind<C, S> {
    /// Run a command to its end.
    Run(C, OnFail<S>),
    /// Start a command and write the text to its standard input.
    Spawn(C, S),
    /// Wait for the command that was started last.
    Wait(OnFail<S>),
    /// Find out whether a path exists, and record the answer.
    Probe(S),
    /// Stop the procedure with this error.
    Abort(S),
    /// Stop the procedure where the host program cannot go on.
    Halt(S),
    /// Read the working directory; an error stops the procedure with this
    /// text followed by the error's text.
    CurrentDir(S),
    /// Change the working directory (whatever comes of it).
    ChangeDir(S),
    /// Find the newly attached device, given the listing made before it was attached.
    Detect(S),
    /// Print a line for the user.
    Print(S),
}

/// A step of a plan: what to do, and when.
#[derive(Clone, Debug, PartialEq, Eq)]
pub struct Step<C, S> {
    pub guard: Guard,
    pub kind: Kind<C, S>,
}

/// A step as the program holds it.
pub type ExecStep = Step<Cmd, String>;

/// A step as the contracts speak of it.
pub type SpecStep = Step<CmdSpec, Seq<char>>;

impl View for OnFail<String> {
    type V = OnFail<Seq<char>>;

    open spec fn view(&self) -> OnFail<Seq<char>> {
        match self {
            OnFail::Ignore => OnFail::Ignore,
            OnFail::Report(s) => OnFail::Report(s@),
            OnFail::Say(s) => OnFail::Say(s@),
        }
    }
}

impl View for Kind<Cmd, String> {
    type V = Kind<CmdSpec, Seq<char>>;

    open spec fn view(&self) -> Kind<CmdSpec, Seq<char>> {
        match self {
            Kind::Run(c, f) => Kind::Run(c@, f@),
            Kind::Spawn(c, s) => Kind::Spawn(c@, s@),
            Kind::Wait(f) => Kind::Wait(f@),
            Kind::Probe(s) => Kind::Probe(s@),
            Kind::Abort(s) => Kind::Abort(s@),
            Kind::Halt(s) => Kind::Halt(s@),
            Kind::CurrentDir(s) => Kind::CurrentDir(s@),
            Kind::ChangeDir(s) => Kind::ChangeDir(s@),
            Kind::Detect(s) => Kind::Detect(s@),
            Kind::Print(s) => Kind::Print(s@),
        }
    }
}

impl View for ExecStep {
    type V = SpecStep;

    open spec fn view(&self) -> SpecStep {
        Step { guard: self.guard, kind: self.kind@ }
    }
}

/// Whether a step with guard `g` is carried out, given the answers of the
/// probes so far (by step, `None` where no probe was made) and the working
/// directory read so far.
pub open spec fn guard_holds(g: Guard, found: Seq<Option<bool>>, cwd: Option<Seq<char>>) -> bool {
    match g {
        Guard::Always => true,
        Guard::IfFound(k) => k < found.len() && found[k as int] == Some(true),
        Guard::IfMissing(k) => k < found.len() && found[k as int] == Some(false),
        Guard::IfNoCwd => cwd is None,
    }
}

/// Executable form of [`guard_holds`].
pub fn check_guard(g: Guard, found: &Vec<Option<bool>>, cwd: &Option<String>) -> (res: bool)
    ensures
        res == guard_holds(g, found@, cwd.deep_view()),
{
    match g {
        Guard::Always => true,
        Guard::IfFound(k) => k < found.len() && found[k] == Some(true),
        Guard::IfMissing(k) => k < found.len() && found[k] == Some(false),
        Guard::IfNoCwd => cwd.is_none(),
    }
}

/// A command with no redirection of its output.
pub open spec fn cmd(program: Seq<char>, args: Seq<Seq<char>>) -> CmdSpec {
    CmdSpec { program, args, stdout_to: None }
}

/// A step that is always carried out.
pub open spec fn always(kind: Kind<CmdSpec, Seq<char>>) -> SpecStep {
    Step { guard: Guard::Always, kind }
}

/// Run `program` with `args`; a failure does not stop the procedure.
pub open spec fn quiet(program: Seq<char>, args: Seq<Seq<char>>) -> SpecStep {
    always(Kind::Run(cmd(program, args), OnFail::Ignore))
}

/// Run `program` with `args`; a failure stops the procedure with `prefix`
/// followed by the command's standard error.
pub open spec fn checked(program: Seq<char>, args: Seq<Seq<char>>, prefix: Seq<char>) -> SpecStep {
    always(Kind::Run(cmd(program, args), OnFail::Report(prefix)))
}

/// Executable form of [`cmd`].
pub fn make_cmd(program: &str, args: Vec<String>) -> (res: Cmd)
    ensures
        res@ == cmd(program@, args.deep_view()),
{
    Cmd { program: owned(program), args, stdout_to: None }
}

/// Executable form of [`quiet`].
pub fn make_quiet(program: &str, args: Vec<String>) -> (res: ExecStep)
    ensures
        res@ == quiet(program@, args.deep_view()),
{
    Step { guard: Guard::Always, kind: Kind::Run(make_cmd(program, args), OnFail::Ignore) }
}

/// Executable form of [`checked`].
pub fn make_checked(program: &str, args: Vec<String>, prefix: &str) -> (res: ExecStep)
    ensures
        res@ == checked(program@, args.deep_view(), prefix@),
{
    Step {
        guard: Guard::Always,
        kind: Kind::Run(make_cmd(program, args), OnFail::Report(owned(prefix))),
    }
}

/// A step that is always carried out.
pub fn make_always(kind: Kind<Cmd, String>) -> (res: ExecStep)
    ensures
        res@ == always(kind@),
{
    Step { guard: Guard::Always, kind }
}

} // verus!

verus! {

/// The mathematical value of a step that may be absent.
pub open spec fn opt_view(o: Option<ExecStep>) -> Option<SpecStep> {
    match o {
        Some(s) => Some(s@),
        None => None,
    }
}

} // verus!

verus! {

/// `step`, carried out only when `g` holds.
pub open spec fn guarded(g: Guard, step: SpecStep) -> SpecStep {
    Step { guard: g, kind: step.kind }
}

/// Find out whether `path` exists.
pub open spec fn probe(path: Seq<char>) -> SpecStep {
    always(Kind::Probe(path))
}

/// Executable form of [`guarded`].
pub fn make_guarded(g: Guard, step: ExecStep) -> (res: ExecStep)
    ensures
        res@ == guarded(g, step@),
{
    Step { guard: g, kind: step.kind }
}

/// Executable form of [`probe`].
pub fn make_probe(path: String) -> (res: ExecStep)
    ensures
        res@ == probe(path@),
{
    Step { guard: Guard::Always, kind: Kind::Probe(path) }
}

} // verus!
