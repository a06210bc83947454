use vstd::prelude::*;
use crate::bootable::{bootable_done, bootable_len, bootable_step, bootable_step_exec};
use crate::init_iso::{init_iso_done, init_iso_len, init_iso_step, init_iso_step_exec};
use crate::pre_install::{pre_install_done, pre_install_len, pre_install_step, pre_install_step_exec};
use crate::step::{opt_view, ExecStep, SpecStep};
use crate::text::owned;

verus! {

/// One of the three procedures, with what the user chose for it.
#[derive(Clone, Debug, PartialEq, Eq)]
pub enum Job<S> {
    /// Flash the installer image onto the device `target`; `root` is the
    /// administrator password (empty when there is none).
    PreInstall { home: S, root: S, target: S },
    /// Build the image for the hardware wallets.
    InitIso { home: S, user: S },
    /// Make a hardware wallet out of the device attached after the listing
    /// `baseline` was made.
    Bootable { home: S, user: S, number: S, setup: S, awake: bool, baseline: S },
}

impl View for Job<String> {
    type V = Job<Seq<char>>;

    open spec fn view(&self) -> Job<Seq<char>> {
        match self {
            Job::PreInstall { home, root, target } => Job::PreInstall {
                home: home@,
                root: root@,
                target: target@,
            },
            Job::InitIso { home, user } => Job::InitIso { home: home@, user: user@ },
            Job::Bootable { home, user, number, setup, awake, baseline } => Job::Bootable {
                home: home@,
                user: user@,
                number: number@,
                setup: setup@,
                awake: *awake,
                baseline: baseline@,
            },
        }
    }
}

/// Step `i` of the job's plan, given the device found last (`target`) and
/// the working directory read (`cwd`); `None` past the plan's end.
pub open spec fn step_at(job: Job<Seq<char>>, target: Seq<char>, cwd: Option<Seq<char>>, i: int) -> Option<
    SpecStep,
> {
    match job {
        Job::PreInstall { home, root, target: device } => pre_install_step(home, root, device, i),
        Job::InitIso { home, user } => init_iso_step(home, user, i),
        Job::Bootable { home, user, number, setup, awake, baseline } => bootable_step(
            home,
            user,
            number,
            setup,
            awake,
            baseline,
            target,
            cwd,
            i,
        ),
    }
}

/// The number of steps of the job's plan.
pub open spec fn plan_len(job: Job<Seq<char>>) -> nat {
    match job {
        Job::PreInstall { root, .. } => pre_install_len(root),
        Job::InitIso { .. } => init_iso_len(),
        Job::Bootable { .. } => bootable_len(),
    }
}

/// What the job answers when every step went through.
pub open spec fn done_text(job: Job<Seq<char>>) -> Seq<char> {
    match job {
        Job::PreInstall { .. } => pre_install_done(),
        Job::InitIso { .. } => init_iso_done(),
        Job::Bootable { .. } => bootable_done(),
    }
}

/// A plan has a step at every index below its length, and none elsewhere.
pub proof fn lemma_plan_extent(job: Job<Seq<char>>, target: Seq<char>, cwd: Option<Seq<char>>, i: int)
    ensures
        step_at(job, target, cwd, i) is Some <==> 0 <= i < plan_len(job),
{
}

/// Executable form of [`step_at`].
pub fn step_exec(job: &Job<String>, target: &str, cwd: &Option<String>, i: usize) -> (res: Option<ExecStep>)
    ensures
        opt_view(res) == step_at(job@, target@, cwd.deep_view(), i as int),
{
    match job {
        Job::PreInstall { home, root, target: device } => pre_install_step_exec(
            home.as_str(),
            root.as_str(),
            device.as_str(),
            i,
        ),
        Job::InitIso { home, user } => init_iso_step_exec(home.as_str(), user.as_str(), i),
        Job::Bootable { home, user, number, setup, awake, baseline } => bootable_step_exec(
            home.as_str(),
            user.as_str(),
            number.as_str(),
            setup.as_str(),
            *awake,
            baseline.as_str(),
            target,
            cwd,
            i,
        ),
    }
}

/// Executable form of [`plan_len`].
pub fn plan_len_exec(job: &Job<String>) -> (res: usize)
    ensures
        res == plan_len(job@),
{
    match job {
        Job::PreInstall { root, .. } => {
            if root.as_str().is_empty() {
                5
            } else {
                7
            }
        },
        Job::InitIso { .. } => 29,
        Job::Bootable { .. } => 62,
    }
}

/// Executable form of [`done_text`].
pub fn done_text_exec(job: &Job<String>) -> (res: String)
    ensures
        res@ == done_text(job@),
{
    match job {
        Job::PreInstall { .. } => owned("pre-install complete!"),
        Job::InitIso { .. } => owned("SUCCESS in init_iso"),
        Job::Bootable { .. } => owned("SUCCESS in creating bootable device"),
    }
}

} // verus!
