use vstd::prelude::*;
use crate::bootable::bootable_step;
use crate::init_iso::init_iso_step;
use crate::plan::{done_text, lemma_plan_extent, plan_len};
use crate::pre_install::{burn_args, pre_install_step};
use crate::runner::{
    current, fits, guard_at, lemma_first_live, lemma_next, next, probe_at, runner_wf, stop_at, Action, Event,
    RunnerState,
};
use crate::step::{always, cmd, guard_holds, CmdSpec, Kind, OnFail, SpecStep, Step};

verus! {

/// The runner after the answers `es`, each given to the step it answers;
/// answers after the procedure ended are not looked at, and the result is
/// `None` where an answer is not of the kind its step asks for.
pub open spec fn run(r: RunnerState, es: Seq<Event<Seq<char>>>) -> Option<RunnerState>
    decreases es.len(),
{
    if es.len() == 0 || r.over {
        Some(r)
    } else if !fits(current(r).unwrap().kind, es[0]) {
        None
    } else {
        run(next(r, es[0]).0, es.drop_first())
    }
}

/// Every answer moves a procedure one step on at least: after `es` it is over,
/// or it stands `es.len()` steps further at least, and it stays consistent.
pub proof fn law_run_moves_on(r: RunnerState, es: Seq<Event<Seq<char>>>)
    requires
        runner_wf(r),
        run(r, es) is Some,
    ensures
        runner_wf(run(r, es).unwrap()),
        run(r, es).unwrap().job == r.job,
        run(r, es).unwrap().over || run(r, es).unwrap().index >= r.index + es.len(),
    decreases es.len(),
{
    if es.len() != 0 && !r.over {
        lemma_next(r, es[0]);
        law_run_moves_on(next(r, es[0]).0, es.drop_first());
    }
}

/// A procedure is over once it has had as many answers as its plan has
/// steps left.
pub proof fn law_run_ends(r: RunnerState, es: Seq<Event<Seq<char>>>)
    requires
        runner_wf(r),
        run(r, es) is Some,
        es.len() >= plan_len(r.job) - r.index,
    ensures
        run(r, es).unwrap().over,
{
    law_run_moves_on(r, es);
}

/// A step is asked for only when its guard holds: a download only when the
/// file is missing, a removal only when the file is there, and so on.
pub proof fn law_guard_holds_when_asked(r: RunnerState)
    requires
        runner_wf(r),
        !r.over,
    ensures
        guard_holds(guard_at(r.job, r.index as int), r.found, r.cwd),
{
    lemma_first_live(r.job, r.found, r.cwd, r.index);
}

/// A procedure answers success only past its last step, and only with its
/// success text.
pub proof fn law_success_only_at_end(r: RunnerState, e: Event<Seq<char>>)
    requires
        runner_wf(r),
        !r.over,
        fits(current(r).unwrap().kind, e),
    ensures
        next(r, e).1 matches Action::Finish(Ok(m)) ==> m == done_text(r.job) && next(r, e).0.index
            == plan_len(r.job),
{
    lemma_next(r, e);
    let r2 = next(r, e).0;
    lemma_plan_extent(r.job, r2.target, r2.cwd, r2.index as int);
    lemma_plan_extent(r.job, r.target, r.cwd, r.index as int);
}

/// A command whose failure the plan ignores counts as if it had succeeded.
pub proof fn law_ignored_failure(r: RunnerState, stderr: Option<Seq<char>>)
    requires
        runner_wf(r),
        !r.over,
        current(r) matches Some(s) && s.kind matches Kind::Run(_, OnFail::Ignore),
    ensures
        next(r, Event::Ran { success: false, stderr }) == next(r, Event::Ran { success: true, stderr }),
{
}

/// Whether the step runs a command, or waits for one it started, and reports
/// its failure with the text `prefix`.
pub open spec fn reports_with(kind: Kind<CmdSpec, Seq<char>>, prefix: Seq<char>) -> bool {
    match kind {
        Kind::Run(_, OnFail::Report(p)) => p == prefix,
        Kind::Wait(OnFail::Report(p)) => p == prefix,
        _ => false,
    }
}

/// A command (run, or started and waited for) whose failure the plan reports
/// ends the procedure with the plan's text followed by what the command wrote
/// to standard error, whatever that was.
pub proof fn law_reported_failure(r: RunnerState, prefix: Seq<char>, stderr: Seq<char>)
    requires
        runner_wf(r),
        !r.over,
        current(r) matches Some(s) && reports_with(s.kind, prefix),
    ensures
        next(r, Event::Ran { success: false, stderr: Some(stderr) }).1 == Action::<CmdSpec, Seq<char>>::Finish(
            Err(prefix + stderr),
        ),
        next(r, Event::Ran { success: false, stderr: Some(stderr) }).0.over,
{
}

/// The image build answers success only when both patched installer images
/// were found after the scripts that make them ran.
pub proof fn law_image_checked(r: RunnerState, e: Event<Seq<char>>)
    requires
        runner_wf(r),
        !r.over,
        r.job is InitIso,
        fits(current(r).unwrap().kind, e),
        next(r, e).1 is Finish,
        next(r, e).1->Finish_0 is Ok,
    ensures
        next(r, e).0.found[22] == Some(true),
        next(r, e).0.found[25] == Some(true),
{
    law_success_only_at_end(r, e);
    let r2 = next(r, e).0;
    lemma_next(r, e);
    lemma_plan_extent(r.job, Seq::empty(), None, 22);
    lemma_plan_extent(r.job, Seq::empty(), None, 23);
    lemma_plan_extent(r.job, Seq::empty(), None, 25);
    lemma_plan_extent(r.job, Seq::empty(), None, 26);
    assert(probe_at(r2.job, 22));
    assert(stop_at(r2.job, 23));
    assert(probe_at(r2.job, 25));
    assert(stop_at(r2.job, 26));
}

/// A step with the text written to a started command's standard input blanked out.
pub open spec fn without_input(step: Option<SpecStep>) -> Option<SpecStep> {
    match step {
        Some(Step { guard, kind: Kind::Spawn(c, _) }) => Some(Step { guard, kind: Kind::Spawn(c, Seq::empty()) }),
        _ => step,
    }
}

/// The administrator password reaches `sudo` only on its standard input:
/// flashing with two passwords runs the same commands with the same
/// arguments, and the password is what is written to `dd`'s `sudo`.
pub proof fn law_password_only_on_stdin(
    home: Seq<char>,
    root1: Seq<char>,
    root2: Seq<char>,
    target: Seq<char>,
    i: int,
)
    requires
        root1.len() > 0,
        root2.len() > 0,
    ensures
        without_input(pre_install_step(home, root1, target, i)) == without_input(
            pre_install_step(home, root2, target, i),
        ),
        pre_install_step(home, root1, target, 3) == Some(
            always(Kind::Spawn(cmd("sudo"@, burn_args(home, target)), root1)),
        ),
{
}

/// Without a password nothing is written to any command's standard input.
pub proof fn law_no_password_no_input(home: Seq<char>, target: Seq<char>, i: int)
    ensures
        !(pre_install_step(home, Seq::empty(), target, i) matches Some(s) && s.kind is Spawn),
{
}

/// Making a hardware wallet writes the image onto the device it has just
/// found (step 4 after the detection at step 3), and formats partition 4 of
/// the device it has just found (step 24 after the detection at step 23).
pub proof fn law_device_just_found(r: RunnerState, t: Seq<char>)
    requires
        runner_wf(r),
        !r.over,
        r.job is Bootable,
        r.index == 3 || r.index == 23,
    ensures
        r.index == 3 ==> next(r, Event::Device(Ok(t))).1 == Action::<CmdSpec, Seq<char>>::Run(
            cmd(
                "sudo"@,
                seq![
                    "dd"@,
                    "if="@ + r.job->Bootable_home + "/fox/persistent-ubuntu.iso"@,
                    "of="@ + t,
                    "bs=4M"@,
                    "oflag=sync"@,
                    "status=progress"@,
                ],
            ),
        ),
        r.index == 23 ==> next(r, Event::Device(Ok(t))).1 == Action::<CmdSpec, Seq<char>>::Run(
            cmd("sudo"@, seq!["mkfs.ext4"@, t + "4"@]),
        ),
{
    lemma_plan_extent(r.job, Seq::empty(), None, r.index + 1int);
}

/// Once the persistent partition is mounted (step 29), no later step of
/// making a hardware wallet names the device.
pub proof fn law_device_left_alone_after_mount(
    home: Seq<char>,
    user: Seq<char>,
    number: Seq<char>,
    setup: Seq<char>,
    awake: bool,
    baseline: Seq<char>,
    target1: Seq<char>,
    target2: Seq<char>,
    cwd: Option<Seq<char>>,
    i: int,
)
    requires
        i >= 30,
    ensures
        bootable_step(home, user, number, setup, awake, baseline, target1, cwd, i) == bootable_step(
            home,
            user,
            number,
            setup,
            awake,
            baseline,
            target2,
            cwd,
            i,
        ),
{
}

/// The working directory read at the start matters only for copying the
/// program onto the device (step 52).
pub proof fn law_cwd_only_for_program(
    home: Seq<char>,
    user: Seq<char>,
    number: Seq<char>,
    setup: Seq<char>,
    awake: bool,
    baseline: Seq<char>,
    target: Seq<char>,
    cwd1: Option<Seq<char>>,
    cwd2: Option<Seq<char>>,
    i: int,
)
    requires
        i != 52,
    ensures
        bootable_step(home, user, number, setup, awake, baseline, target, cwd1, i) == bootable_step(
            home,
            user,
            number,
            setup,
            awake,
            baseline,
            target,
            cwd2,
            i,
        ),
{
}

/// The command that a step runs or starts, if it does.
pub open spec fn command_of(step: Option<SpecStep>) -> Option<CmdSpec> {
    match step {
        Some(Step { kind: Kind::Run(c, _), .. }) => Some(c),
        Some(Step { kind: Kind::Spawn(c, _), .. }) => Some(c),
        _ => None,
    }
}

/// The path that a step looks for, if it is a probe.
pub open spec fn probed_path(step: Option<SpecStep>) -> Option<Seq<char>> {
    match step {
        Some(Step { kind: Kind::Probe(p), .. }) => Some(p),
        _ => None,
    }
}

/// Flashing copies the image in the directory that step 1 looks for onto
/// exactly the device the user chose, with the same command whether or not
/// a password is given.
pub proof fn law_burn_onto_chosen_device(home: Seq<char>, root: Seq<char>, target: Seq<char>)
    requires
        root.len() > 0,
    ensures
        command_of(pre_install_step(home, Seq::empty(), target, 3)) == command_of(
            pre_install_step(home, root, target, 3),
        ),
        command_of(pre_install_step(home, Seq::empty(), target, 3)) matches Some(c) && {
            &&& c.program == "sudo"@
            &&& c.args.len() == 6
            &&& c.args[0] == "dd"@
            &&& c.args[2] == "of="@ + target
            &&& probed_path(pre_install_step(home, root, target, 1)) matches Some(dir)
            &&& c.args[1] == "if="@ + probed_path(pre_install_step(home, root, target, 1)).unwrap()
                + "/fox-ubuntu-22.04-amd64.iso"@
        },
{
    reveal_strlit("/fox-tmp");
    reveal_strlit("/fox-ubuntu-22.04-amd64.iso");
    reveal_strlit("/fox-tmp/fox-ubuntu-22.04-amd64.iso");
    assert(home + "/fox-tmp/fox-ubuntu-22.04-amd64.iso"@ =~= home + "/fox-tmp"@ + "/fox-ubuntu-22.04-amd64.iso"@);
    assert("if="@ + home + "/fox-tmp/fox-ubuntu-22.04-amd64.iso"@ =~= "if="@ + (home + "/fox-tmp"@) + "/fox-ubuntu-22.04-amd64.iso"@);
}

/// The image build never removes its product: once the finished image was
/// found (step 25), no command names it, and the last removal (step 27)
/// deletes the intermediate image found at step 22.
pub proof fn law_image_build_keeps_product(home: Seq<char>, user: Seq<char>, i: int)
    requires
        i >= 25,
    ensures
        command_of(init_iso_step(home, user, i)) matches Some(c) ==> !c.args.contains("persistent-ubuntu.iso"@),
        command_of(init_iso_step(home, user, 27)) matches Some(c) && {
            &&& c.program == "sudo"@
            &&& c.args.len() == 2
            &&& c.args[0] == "rm"@
            &&& probed_path(init_iso_step(home, user, 22)) == Some(home + "/fox/"@ + c.args[1])
            &&& probed_path(init_iso_step(home, user, 25)) is Some
            &&& probed_path(init_iso_step(home, user, 25)) != Some(home + "/fox/"@ + c.args[1])
        },
{
    reveal_strlit("persistent-ubuntu.iso");
    reveal_strlit("persistent-ubuntu1.iso");
    reveal_strlit("rm");
    reveal_strlit("/fox/");
    reveal_strlit("/fox/persistent-ubuntu1.iso");
    reveal_strlit("/fox/persistent-ubuntu.iso");
    assert(home + "/fox/persistent-ubuntu1.iso"@ =~= home + "/fox/"@ + "persistent-ubuntu1.iso"@);
    assert((home + "/fox/persistent-ubuntu1.iso"@).len() != (home + "/fox/persistent-ubuntu.iso"@).len());
    if i == 27 {
        let c = command_of(init_iso_step(home, user, i)).unwrap();
        assert("rm"@.len() != "persistent-ubuntu.iso"@.len());
        assert(c.args[0] != "persistent-ubuntu.iso"@);
        assert(c.args[1] != "persistent-ubuntu.iso"@);
        assert(c.args =~= seq![c.args[0], c.args[1]]);
    }
}

/// Making a wallet labels `writable` the very partition that it formats and
/// then mounts: partition 4 of the device found last.
pub proof fn law_label_the_formatted_partition(
    home: Seq<char>,
    user: Seq<char>,
    number: Seq<char>,
    setup: Seq<char>,
    awake: bool,
    baseline: Seq<char>,
    target: Seq<char>,
    cwd: Option<Seq<char>>,
)
    ensures
        ({
            let step = |i: int| bootable_step(home, user, number, setup, awake, baseline, target, cwd, i);
            command_of(step(24)) matches Some(format) && command_of(step(25)) matches Some(label)
                && command_of(step(29)) matches Some(mount) && {
                &&& format.args[0] == "mkfs.ext4"@
                &&& format.args[1] == target + "4"@
                &&& label.program == "sudo"@
                &&& label.args.len() == 3
                &&& label.args[0] == "e2label"@
                &&& label.args[1] == format.args[1]
                &&& label.args[2] == "writable"@
                &&& mount.args[0] == "mount"@
                &&& mount.args[1] == format.args[1]
            }
        }),
{
}

/// Bitcoin core is unpacked into the wallet user's home: the directory the
/// program is copied into (step 52), and the one that holds `.bitcoin`
/// (step 54).
pub proof fn law_bitcoin_into_wallet_home(
    home: Seq<char>,
    user: Seq<char>,
    number: Seq<char>,
    setup: Seq<char>,
    awake: bool,
    baseline: Seq<char>,
    target: Seq<char>,
    cwd: Option<Seq<char>>,
)
    ensures
        ({
            let step = |i: int| bootable_step(home, user, number, setup, awake, baseline, target, cwd, i);
            command_of(step(52)) matches Some(copy) && command_of(step(53)) matches Some(untar)
                && command_of(step(54)) matches Some(dot) && {
                &&& untar.program == "tar"@
                &&& untar.args.len() == 4
                &&& untar.args[0] == "-xzf"@
                &&& untar.args[1] == home + "/fox/bitcoin-25.0-x86_64-linux-gnu.tar.gz"@
                &&& untar.args[2] == "-C"@
                &&& untar.args[3] == "/media/"@ + user + "/writable/upper/home/ubuntu"@
                &&& untar.args[3] == copy.args[1]
                &&& dot.args[0] == untar.args[3] + "/.bitcoin"@
            }
        }),
{
    reveal_strlit("/writable/upper/home/ubuntu");
    reveal_strlit("/.bitcoin");
    reveal_strlit("/writable/upper/home/ubuntu/.bitcoin");
    assert("/media/"@ + user + "/writable/upper/home/ubuntu/.bitcoin"@ =~= "/media/"@ + user
        + "/writable/upper/home/ubuntu"@ + "/.bitcoin"@);
}

} // verus!
