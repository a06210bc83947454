use vstd::prelude::*;
use crate::plan::{done_text, done_text_exec, lemma_plan_extent, plan_len, plan_len_exec, step_at, step_exec, Job};
use crate::step::{check_guard, guard_holds, Cmd, CmdSpec, Guard, Kind, OnFail, SpecStep};
use crate::text::owned;

verus! {

/// What the host program is asked to do next.
#[derive(Debug, PartialEq, Eq)]
pub enum Action<C, S> {
    /// Run the command to its end; answer with [`Event::Ran`].
    Run(C),
    /// Start the command and write the text to its standard input; answer with [`Event::Done`].
    Spawn(C, S),
    /// Wait for the command that was started last; answer with [`Event::Ran`].
    Wait,
    /// Find out whether the path exists; answer with [`Event::Found`].
    Probe(S),
    /// Read the working directory; answer with [`Event::Cwd`].
    CurrentDir,
    /// Change the working directory, whatever comes of it; answer with [`Event::Done`].
    ChangeDir(S),
    /// Find the device attached after the listing was made; answer with [`Event::Device`].
    Detect(S),
    /// Print the line; answer with [`Event::Done`].
    Print(S),
    /// Stop: the procedure cannot go on (the host program gives up here).
    Halt(S),
    /// The procedure is over, with this answer.
    Finish(Result<S, S>),
}

/// What the host program reports back.
#[derive(Debug, PartialEq, Eq)]
pub enum Event<S> {
    /// The command ended, successfully or not; `stderr` is what it wrote to
    /// standard error, as text (`None` where that is not valid UTF-8).
    Ran { success: bool, stderr: Option<S> },
    /// Whether the path exists.
    Found(bool),
    /// The working directory: its textual form if it has one, or the error's text.
    Cwd(Result<Option<S>, S>),
    /// The device that was found, or the error's text.
    Device(Result<S, S>),
    /// The action was carried out.
    Done,
}

/// An action as the program holds it.
pub type ExecAction = Action<Cmd, String>;

/// An action as the contracts speak of it.
pub type SpecAction = Action<CmdSpec, Seq<char>>;

impl View for ExecAction {
    type V = SpecAction;

    open spec fn view(&self) -> SpecAction {
        match self {
            Action::Run(c) => Action::Run(c@),
            Action::Spawn(c, s) => Action::Spawn(c@, s@),
            Action::Wait => Action::Wait,
            Action::Probe(s) => Action::Probe(s@),
            Action::CurrentDir => Action::CurrentDir,
            Action::ChangeDir(s) => Action::ChangeDir(s@),
            Action::Detect(s) => Action::Detect(s@),
            Action::Print(s) => Action::Print(s@),
            Action::Halt(s) => Action::Halt(s@),
            Action::Finish(Ok(s)) => Action::Finish(Ok(s@)),
            Action::Finish(Err(s)) => Action::Finish(Err(s@)),
        }
    }
}

impl View for Event<String> {
    type V = Event<Seq<char>>;

    open spec fn view(&self) -> Event<Seq<char>> {
        match self {
            Event::Ran { success, stderr } => Event::Ran { success: *success, stderr: stderr.deep_view() },
            Event::Found(b) => Event::Found(*b),
            Event::Cwd(Ok(Some(s))) => Event::Cwd(Ok(Some(s@))),
            Event::Cwd(Ok(None)) => Event::Cwd(Ok(None)),
            Event::Cwd(Err(e)) => Event::Cwd(Err(e@)),
            Event::Device(Ok(s)) => Event::Device(Ok(s@)),
            Event::Device(Err(e)) => Event::Device(Err(e@)),
            Event::Done => Event::Done,
        }
    }
}

/// The action that a step asks for.
pub open spec fn action_of(kind: Kind<CmdSpec, Seq<char>>) -> SpecAction {
    match kind {
        Kind::Run(c, _) => Action::Run(c),
        Kind::Spawn(c, s) => Action::Spawn(c, s),
        Kind::Wait(_) => Action::Wait,
        Kind::Probe(p) => Action::Probe(p),
        Kind::Abort(m) => Action::Finish(Err(m)),
        Kind::Halt(m) => Action::Halt(m),
        Kind::CurrentDir(_) => Action::CurrentDir,
        Kind::ChangeDir(p) => Action::ChangeDir(p),
        Kind::Detect(b) => Action::Detect(b),
        Kind::Print(t) => Action::Print(t),
    }
}

/// Whether an action ends the procedure.
pub open spec fn is_final(a: SpecAction) -> bool {
    a is Finish || a is Halt
}

/// Whether `event` is the kind of answer that the step asks for.
pub open spec fn fits(kind: Kind<CmdSpec, Seq<char>>, event: Event<Seq<char>>) -> bool {
    match kind {
        Kind::Run(_, _) => event is Ran,
        Kind::Wait(_) => event is Ran,
        Kind::Probe(_) => event is Found,
        Kind::CurrentDir(_) => event is Cwd,
        Kind::Detect(_) => event is Device,
        Kind::Spawn(_, _) => event is Done,
        Kind::ChangeDir(_) => event is Done,
        Kind::Print(_) => event is Done,
        Kind::Abort(_) => false,
        Kind::Halt(_) => false,
    }
}

/// The text with which the procedure stops where a failure is to be
/// reported with standard error output that is not text.
pub open spec fn undecodable_text() -> Seq<char> {
    "the command's error output is not valid UTF-8"@
}

/// How a failed command ends the procedure, if it does.
pub open spec fn failure_action(on_fail: OnFail<Seq<char>>, stderr: Option<Seq<char>>) -> Option<SpecAction> {
    match on_fail {
        OnFail::Ignore => None,
        OnFail::Report(prefix) => match stderr {
            Some(e) => Some(Action::Finish(Err(prefix + e))),
            None => Some(Action::Halt(undecodable_text())),
        },
        OnFail::Say(text) => Some(Action::Finish(Err(text))),
    }
}

/// How the step's outcome ends the procedure, if it does.
pub open spec fn failure(kind: Kind<CmdSpec, Seq<char>>, event: Event<Seq<char>>) -> Option<SpecAction> {
    match (kind, event) {
        (Kind::Run(_, f), Event::Ran { success, stderr }) => if success {
            None
        } else {
            failure_action(f, stderr)
        },
        (Kind::Wait(f), Event::Ran { success, stderr }) => if success {
            None
        } else {
            failure_action(f, stderr)
        },
        (Kind::CurrentDir(prefix), Event::Cwd(Err(e))) => Some(Action::Finish(Err(prefix + e))),
        (Kind::Detect(_), Event::Device(Err(e))) => Some(Action::Finish(Err(e))),
        _ => None,
    }
}

/// The probe answers after the outcome of step `i`.
pub open spec fn found_after(
    kind: Kind<CmdSpec, Seq<char>>,
    event: Event<Seq<char>>,
    found: Seq<Option<bool>>,
    i: int,
) -> Seq<Option<bool>> {
    match (kind, event) {
        (Kind::Probe(_), Event::Found(b)) => found.update(i, Some(b)),
        _ => found,
    }
}

/// The device found last, after the step's outcome.
pub open spec fn target_after(kind: Kind<CmdSpec, Seq<char>>, event: Event<Seq<char>>, target: Seq<char>) -> Seq<char> {
    match (kind, event) {
        (Kind::Detect(_), Event::Device(Ok(t))) => t,
        _ => target,
    }
}

/// The working directory read, after the step's outcome.
pub open spec fn cwd_after(
    kind: Kind<CmdSpec, Seq<char>>,
    event: Event<Seq<char>>,
    cwd: Option<Seq<char>>,
) -> Option<Seq<char>> {
    match (kind, event) {
        (Kind::CurrentDir(_), Event::Cwd(Ok(c))) => c,
        _ => cwd,
    }
}

/// Step `i` of the plan with no device and no working directory known:
/// what it does and when, which neither of them changes.
pub open spec fn shape(job: Job<Seq<char>>, i: int) -> Option<SpecStep> {
    step_at(job, Seq::empty(), None, i)
}

/// The guard of step `i` (`Always` past the plan's end).
pub open spec fn guard_at(job: Job<Seq<char>>, i: int) -> Guard {
    match shape(job, i) {
        Some(s) => s.guard,
        None => Guard::Always,
    }
}

/// Whether step `i` is a probe that is always made.
pub open spec fn probe_at(job: Job<Seq<char>>, i: int) -> bool {
    shape(job, i) matches Some(s) && s.kind is Probe && s.guard is Always
}

/// Whether step `i` stops the procedure, depending on what a probe found.
pub open spec fn stop_at(job: Job<Seq<char>>, i: int) -> bool {
    shape(job, i) matches Some(s) && (s.kind is Abort || s.kind is Halt) && (s.guard is IfFound
        || s.guard is IfMissing)
}

/// Two steps do the same kind of thing under the same guard.
pub open spec fn same_shape(a: SpecStep, b: SpecStep) -> bool {
    &&& a.guard == b.guard
    &&& (a.kind is Probe <==> b.kind is Probe)
    &&& (a.kind is Abort <==> b.kind is Abort)
    &&& (a.kind is Halt <==> b.kind is Halt)
}

/// Every guard of the plan looks at a probe that an earlier step always makes.
pub open spec fn guards_look_back(job: Job<Seq<char>>) -> bool {
    forall|j: int|
        0 <= j < plan_len(job) ==> match #[trigger] guard_at(job, j) {
            Guard::IfFound(k) => k < j && probe_at(job, k as int),
            Guard::IfMissing(k) => k < j && probe_at(job, k as int),
            _ => true,
        }
}

/// The first step at or after `i` whose guard holds, or the plan's length
/// when there is none.
pub open spec fn first_live(job: Job<Seq<char>>, found: Seq<Option<bool>>, cwd: Option<Seq<char>>, i: nat) -> nat
    decreases plan_len(job) - i,
{
    if i >= plan_len(job) {
        i
    } else if guard_holds(guard_at(job, i as int), found, cwd) {
        i
    } else {
        first_live(job, found, cwd, i + 1)
    }
}

/// The action for step `i`, or the final answer past the plan's end.
pub open spec fn pending(job: Job<Seq<char>>, target: Seq<char>, cwd: Option<Seq<char>>, i: nat) -> SpecAction {
    match step_at(job, target, cwd, i as int) {
        Some(s) => action_of(s.kind),
        None => Action::Finish(Ok(done_text(job))),
    }
}

/// Where a procedure stands.
pub struct Runner {
    job: Job<String>,
    index: usize,
    found: Vec<Option<bool>>,
    target: String,
    cwd: Option<String>,
    over: bool,
}

/// The mathematical value of a [`Runner`].
pub struct RunnerState {
    /// The procedure.
    pub job: Job<Seq<char>>,
    /// The step being carried out (the plan's length once every step went through).
    pub index: nat,
    /// The answers of the probes so far, by the index of the step that made
    /// them (`None` where no probe was made).
    pub found: Seq<Option<bool>>,
    /// The device found last (empty before the first one).
    pub target: Seq<char>,
    /// The working directory read (none before it was read).
    pub cwd: Option<Seq<char>>,
    /// Whether the procedure is over.
    pub over: bool,
}

impl View for Runner {
    type V = RunnerState;

    closed spec fn view(&self) -> RunnerState {
        RunnerState {
            job: self.job@,
            index: self.index as nat,
            found: self.found@,
            target: self.target@,
            cwd: self.cwd.deep_view(),
            over: self.over,
        }
    }
}

/// The step being carried out.
pub open spec fn current(r: RunnerState) -> Option<SpecStep> {
    step_at(r.job, r.target, r.cwd, r.index as int)
}

/// The action that the runner asks for.
pub open spec fn asked(r: RunnerState) -> SpecAction {
    pending(r.job, r.target, r.cwd, r.index)
}

/// A runner is consistent: it stands on a step whose guard holds (or past
/// the end), it is over exactly when what it asks for ends the procedure,
/// every probe behind it was made and none ahead of it, and no step behind it
/// that stops on a probe's answer had its guard hold.
pub open spec fn runner_wf(r: RunnerState) -> bool {
    &&& r.index <= plan_len(r.job)
    &&& r.found.len() == plan_len(r.job)
    &&& forall|j: int| r.index <= j < plan_len(r.job) ==> #[trigger] r.found[j] is None
    &&& forall|j: int| 0 <= j < r.index && #[trigger] probe_at(r.job, j) ==> r.found[j] is Some
    &&& forall|j: int|
        0 <= j < r.index && #[trigger] stop_at(r.job, j) ==> !guard_holds(guard_at(r.job, j), r.found, r.cwd)
    &&& (!r.over ==> {
        &&& r.index < plan_len(r.job)
        &&& r.index == first_live(r.job, r.found, r.cwd, r.index)
        &&& !is_final(asked(r))
    })
}

} // verus!

verus! {

/// The runner after the current step's outcome `event`, and what it asks for next.
pub open spec fn next(r: RunnerState, event: Event<Seq<char>>) -> (RunnerState, SpecAction) {
    let kind = current(r).unwrap().kind;
    match failure(kind, event) {
        Some(a) => (
            RunnerState {
                job: r.job,
                index: r.index,
                found: r.found,
                target: r.target,
                cwd: r.cwd,
                over: true,
            },
            a,
        ),
        None => {
            let found = found_after(kind, event, r.found, r.index as int);
            let target = target_after(kind, event, r.target);
            let cwd = cwd_after(kind, event, r.cwd);
            let i = first_live(r.job, found, cwd, r.index + 1);
            let a = pending(r.job, target, cwd, i);
            (RunnerState { job: r.job, index: i, found, target, cwd, over: is_final(a) }, a)
        },
    }
}

/// Neither the device nor the working directory changes what a step does
/// or when it is carried out.
pub proof fn lemma_shape(job: Job<Seq<char>>, target: Seq<char>, cwd: Option<Seq<char>>, i: int)
    ensures
        step_at(job, target, cwd, i) is Some <==> shape(job, i) is Some,
        step_at(job, target, cwd, i) is Some ==> same_shape(
            step_at(job, target, cwd, i).unwrap(),
            shape(job, i).unwrap(),
        ),
{
    lemma_plan_extent(job, target, cwd, i);
    lemma_plan_extent(job, Seq::empty(), None, i);
}

/// The plans' guards look back at probes that are always made.
pub proof fn lemma_guards_look_back(job: Job<Seq<char>>)
    ensures
        guards_look_back(job),
{
    assert forall|j: int| 0 <= j < plan_len(job) implies match #[trigger] guard_at(job, j) {
        Guard::IfFound(k) => k < j && probe_at(job, k as int),
        Guard::IfMissing(k) => k < j && probe_at(job, k as int),
        _ => true,
    } by {
        lemma_plan_extent(job, Seq::empty(), None, j);
    }
}

/// [`first_live`] lands at or after `i`, on a step whose guard holds or at
/// the plan's end, skipping only steps whose guard does not hold.
pub proof fn lemma_first_live(job: Job<Seq<char>>, found: Seq<Option<bool>>, cwd: Option<Seq<char>>, i: nat)
    ensures
        ({
            let j = first_live(job, found, cwd, i);
            &&& i <= j
            &&& i <= plan_len(job) ==> j <= plan_len(job)
            &&& j < plan_len(job) ==> guard_holds(guard_at(job, j as int), found, cwd)
            &&& first_live(job, found, cwd, j) == j
            &&& forall|k: int| i <= k < j ==> !guard_holds(#[trigger] guard_at(job, k), found, cwd)
        }),
    decreases plan_len(job) - i,
{
    if i < plan_len(job) && !guard_holds(guard_at(job, i as int), found, cwd) {
        lemma_first_live(job, found, cwd, i + 1);
    }
}

/// Each answer keeps the runner consistent and moves it forward, or ends the procedure.
pub proof fn lemma_next(r: RunnerState, e: Event<Seq<char>>)
    requires
        runner_wf(r),
        !r.over,
        fits(current(r).unwrap().kind, e),
    ensures
        runner_wf(next(r, e).0),
        next(r, e).0.job == r.job,
        next(r, e).0.index > r.index || next(r, e).0.over,
{
    let job = r.job;
    lemma_shape(job, r.target, r.cwd, r.index as int);
    let kind = current(r).unwrap().kind;
    if failure(kind, e) is None {
        let found = found_after(kind, e, r.found, r.index as int);
        let target = target_after(kind, e, r.target);
        let cwd = cwd_after(kind, e, r.cwd);
        let i = first_live(job, found, cwd, r.index + 1);
        let r2 = next(r, e).0;
        lemma_first_live(job, found, cwd, r.index + 1);
        lemma_guards_look_back(job);
        assert(found.len() == plan_len(job));
        assert forall|j: int| r2.index <= j < plan_len(job) implies #[trigger] r2.found[j] is None by {
            assert(found[j] == r.found[j]);
        }
        assert forall|j: int| 0 <= j < r2.index && #[trigger] probe_at(job, j) implies r2.found[j] is Some by {
            if j < r.index {
                assert(found[j] == r.found[j]);
            } else if j == r.index {
            } else {
                assert(!guard_holds(guard_at(job, j), found, cwd));
            }
        }
        assert forall|j: int| 0 <= j < r2.index && #[trigger] stop_at(job, j) implies !guard_holds(
            guard_at(job, j),
            r2.found,
            r2.cwd,
        ) by {
            if j < r.index {
                assert(!guard_holds(guard_at(job, j), r.found, r.cwd));
                assert(guard_at(job, j) is IfFound || guard_at(job, j) is IfMissing);
                match guard_at(job, j) {
                    Guard::IfFound(k) => {
                        assert(found[k as int] == r.found[k as int]);
                    },
                    Guard::IfMissing(k) => {
                        assert(found[k as int] == r.found[k as int]);
                    },
                    _ => {},
                }
            } else if j == r.index {
                assert(is_final(asked(r)));
            } else {
            }
        }
        if !r2.over {
            lemma_plan_extent(job, target, cwd, i as int);
        }
    }
}

fn settle(job: &Job<String>, target: &String, cwd: &Option<String>, found: &Vec<Option<bool>>, from: usize) -> (res: usize)
    requires
        from <= plan_len(job@),
    ensures
        res == first_live(job@, found@, cwd.deep_view(), from as nat),
{
    let len = plan_len_exec(job);
    let mut i = from;
    while i < len
        invariant
            from <= i <= len,
            len == plan_len(job@),
            first_live(job@, found@, cwd.deep_view(), from as nat) == first_live(
                job@,
                found@,
                cwd.deep_view(),
                i as nat,
            ),
        decreases len - i,
    {
        proof {
            lemma_plan_extent(job@, target@, cwd.deep_view(), i as int);
            lemma_shape(job@, target@, cwd.deep_view(), i as int);
        }
        let step = step_exec(job, target.as_str(), cwd, i);
        let s = step.unwrap();
        if check_guard(s.guard, found, cwd) {
            return i;
        }
        i = i + 1;
    }
    i
}

fn action_exec(kind: Kind<Cmd, String>) -> (res: ExecAction)
    ensures
        res@ == action_of(kind@),
{
    match kind {
        Kind::Run(c, _) => Action::Run(c),
        Kind::Spawn(c, s) => Action::Spawn(c, s),
        Kind::Wait(_) => Action::Wait,
        Kind::Probe(p) => Action::Probe(p),
        Kind::Abort(m) => Action::Finish(Err(m)),
        Kind::Halt(m) => Action::Halt(m),
        Kind::CurrentDir(_) => Action::CurrentDir,
        Kind::ChangeDir(p) => Action::ChangeDir(p),
        Kind::Detect(b) => Action::Detect(b),
        Kind::Print(t) => Action::Print(t),
    }
}

fn pending_exec(job: &Job<String>, target: &String, cwd: &Option<String>, i: usize) -> (res: ExecAction)
    ensures
        res@ == pending(job@, target@, cwd.deep_view(), i as nat),
{
    match step_exec(job, target.as_str(), cwd, i) {
        Some(s) => action_exec(s.kind),
        None => Action::Finish(Ok(done_text_exec(job))),
    }
}

fn is_final_exec(a: &ExecAction) -> (res: bool)
    ensures
        res == is_final(a@),
{
    match a {
        Action::Finish(_) => true,
        Action::Halt(_) => true,
        _ => false,
    }
}

impl Runner {
    /// Begins the procedure `job`: the runner stands on its first step that
    /// is carried out, and the action returned is what that step asks for.
    pub fn start(job: Job<String>) -> (res: (Runner, ExecAction))
        ensures
            runner_wf(res.0@),
            res.0@.job == job@,
            res.0@.found == Seq::new(plan_len(job@), |j: int| None::<bool>),
            res.0@.target == Seq::<char>::empty(),
            res.0@.cwd is None,
            res.0@.index == first_live(job@, res.0@.found, None, 0),
            res.1@ == asked(res.0@),
            res.0@.over == is_final(res.1@),
    {
        let target = owned("");
        proof {
            reveal_strlit("");
        }
        assert(target@ =~= Seq::<char>::empty());
        let cwd: Option<String> = None;
        let len = plan_len_exec(&job);
        let mut found: Vec<Option<bool>> = Vec::new();
        while found.len() < len
            invariant
                found.len() <= len,
                forall|j: int| 0 <= j < found.len() ==> found@[j] is None,
            decreases len - found.len(),
        {
            found.push(None);
        }
        assert(found@ =~= Seq::new(plan_len(job@), |j: int| None::<bool>));
        proof {
            lemma_first_live(job@, found@, None, 0);
        }
        let index = settle(&job, &target, &cwd, &found, 0);
        let a = pending_exec(&job, &target, &cwd, index);
        let over = is_final_exec(&a);
        proof {
            lemma_plan_extent(job@, target@, None, index as int);
        }
        (Runner { job, index, found, target, cwd, over }, a)
    }

    /// Takes the outcome of the action asked for last, and returns the next
    /// action. A failure that the step reports ends the procedure with the
    /// step's error (or stops it where that error cannot be written out); otherwise the runner moves on to the next step that is
    /// carried out, and past the last one the procedure ends with its
    /// success text. Each call moves the runner forward or ends the procedure.
    pub fn advance(&mut self, event: Event<String>) -> (res: ExecAction)
        requires
            runner_wf(old(self)@),
            !old(self)@.over,
            fits(current(old(self)@).unwrap().kind, event@),
        ensures
            (final(self)@, res@) == next(old(self)@, event@),
            runner_wf(final(self)@),
            final(self)@.job == old(self)@.job,
            final(self)@.index > old(self)@.index || final(self)@.over,
    {
        let ghost old_r = self@;
        proof {
            lemma_plan_extent(old_r.job, old_r.target, old_r.cwd, old_r.index as int);
            lemma_next(old_r, event@);
        }
        let step = step_exec(&self.job, self.target.as_str(), &self.cwd, self.index).unwrap();
        let kind = step.kind;
        match kind {
            Kind::Run(_, f) => {
                if let Event::Ran { success, stderr } = event {
                    if !success {
                        match f {
                            OnFail::Ignore => {},
                            OnFail::Report(p) => {
                                self.over = true;
                                return match stderr {
                                    Some(e) => Action::Finish(Err(p.concat(e.as_str()))),
                                    None => Action::Halt(owned("the command's error output is not valid UTF-8")),
                                };
                            },
                            OnFail::Say(m) => {
                                self.over = true;
                                return Action::Finish(Err(m));
                            },
                        }
                    }
                }
            },
            Kind::Wait(f) => {
                if let Event::Ran { success, stderr } = event {
                    if !success {
                        match f {
                            OnFail::Ignore => {},
                            OnFail::Report(p) => {
                                self.over = true;
                                return match stderr {
                                    Some(e) => Action::Finish(Err(p.concat(e.as_str()))),
                                    None => Action::Halt(owned("the command's error output is not valid UTF-8")),
                                };
                            },
                            OnFail::Say(m) => {
                                self.over = true;
                                return Action::Finish(Err(m));
                            },
                        }
                    }
                }
            },
            Kind::Probe(_) => {
                if let Event::Found(b) = event {
                    self.found.set(self.index, Some(b));
                }
            },
            Kind::CurrentDir(p) => {
                match event {
                    Event::Cwd(Ok(c)) => {
                        self.cwd = c;
                    },
                    Event::Cwd(Err(e)) => {
                        self.over = true;
                        return Action::Finish(Err(p.concat(e.as_str())));
                    },
                    _ => {},
                }
            },
            Kind::Detect(_) => {
                match event {
                    Event::Device(Ok(t)) => {
                        self.target = t;
                    },
                    Event::Device(Err(e)) => {
                        self.over = true;
                        return Action::Finish(Err(e));
                    },
                    _ => {},
                }
            },
            _ => {},
        }
        proof {
            lemma_first_live(self@.job, self@.found, self@.cwd, (self.index + 1) as nat);
        }
        let i = settle(&self.job, &self.target, &self.cwd, &self.found, self.index + 1);
        self.index = i;
        let a = pending_exec(&self.job, &self.target, &self.cwd, i);
        self.over = is_final_exec(&a);
        a
    }
}

} // verus!
