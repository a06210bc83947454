use vstd::prelude::*;
use crate::step::{always, checked, cmd, make_always, make_checked, make_cmd, make_quiet, opt_view, quiet, ExecStep, Guard, Kind, OnFail, SpecStep, Step};
use crate::text::{join, join3, owned};

verus! {

/// Where the prepared installer image is kept, under the home directory.
pub open spec fn tmp_dir(home: Seq<char>) -> Seq<char> {
    home + "/fox-tmp"@
}

/// The arguments of `sudo` that copy the installer image onto `target`.
pub open spec fn burn_args(home: Seq<char>, target: Seq<char>) -> Seq<Seq<char>> {
    seq![
        "dd"@,
        "if="@ + home + "/fox-tmp/fox-ubuntu-22.04-amd64.iso"@,
        "of="@ + target,
        "bs=16M"@,
        "oflag=sync"@,
        "status=progress"@,
    ]
}

/// The steps that flash the installer onto the device `target`. With an
/// administrator password (`root` not empty) the password is written to the
/// standard input of `sudo`; without one `sudo` is run as it is.
pub open spec fn pre_install_step(home: Seq<char>, root: Seq<char>, target: Seq<char>, i: int) -> Option<
    SpecStep,
> {
    if i == 0 {
        Some(
            always(
                Kind::Run(
                    cmd("ping"@, seq!["-c"@, "1"@, "linux.org"@]),
                    OnFail::Say("Error in Pre_install ping failed networking is not enabled"@),
                ),
            ),
        )
    } else if i == 1 {
        Some(always(Kind::Probe(tmp_dir(home))))
    } else if i == 2 {
        Some(
            Step {
                guard: Guard::IfMissing(1),
                kind: Kind::Run(
                    cmd("mkdir"@, seq![tmp_dir(home)]),
                    OnFail::Report("ERROR in pre_install with creating fox-tmp directory = "@),
                ),
            },
        )
    } else if root.len() > 0 {
        if i == 3 {
            Some(always(Kind::Spawn(cmd("sudo"@, burn_args(home, target)), root)))
        } else if i == 4 {
            Some(quiet("sleep"@, seq!["2"@]))
        } else if i == 5 {
            Some(
                always(
                    Kind::Wait(
                        OnFail::Report("ERROR in pre_install with Burning ISO with DD & piping root = "@),
                    ),
                ),
            )
        } else if i == 6 {
            Some(quiet("sync"@, seq![]))
        } else {
            None
        }
    } else {
        if i == 3 {
            Some(
                checked(
                    "sudo"@,
                    burn_args(home, target),
                    "ERROR in pre_install with Burning ISO with DD & blank sysPass = "@,
                ),
            )
        } else if i == 4 {
            Some(quiet("sync"@, seq![]))
        } else {
            None
        }
    }
}

/// The number of steps of the flashing procedure.
pub open spec fn pre_install_len(root: Seq<char>) -> nat {
    if root.len() > 0 {
        7
    } else {
        5
    }
}

/// What the flashing procedure answers when every step went through.
pub open spec fn pre_install_done() -> Seq<char> {
    "pre-install complete!"@
}

fn burn_args_exec(home: &str, target: &str) -> (res: Vec<String>)
    ensures
        res.deep_view() == burn_args(home@, target@),
{
    let v = vec![
        owned("dd"),
        join3("if=", home, "/fox-tmp/fox-ubuntu-22.04-amd64.iso"),
        join("of=", target),
        owned("bs=16M"),
        owned("oflag=sync"),
        owned("status=progress"),
    ];
    assert(v.deep_view() =~= burn_args(home@, target@));
    v
}

/// Step `i` of the flashing procedure, or `None` past its end.
pub fn pre_install_step_exec(home: &str, root: &str, target: &str, i: usize) -> (res: Option<ExecStep>)
    ensures
        opt_view(res) == pre_install_step(home@, root@, target@, i as int),
{
    if i == 0 {
        let v = vec![owned("-c"), owned("1"), owned("linux.org")];
        assert(v.deep_view() =~= seq!["-c"@, "1"@, "linux.org"@]);
        Some(
            make_always(
                Kind::Run(
                    make_cmd("ping", v),
                    OnFail::Say(owned("Error in Pre_install ping failed networking is not enabled")),
                ),
            ),
        )
    } else if i == 1 {
        Some(make_always(Kind::Probe(join(home, "/fox-tmp"))))
    } else if i == 2 {
        let v = vec![join(home, "/fox-tmp")];
        assert(v.deep_view() =~= seq![tmp_dir(home@)]);
        Some(
            Step {
                guard: Guard::IfMissing(1),
                kind: Kind::Run(
                    make_cmd("mkdir", v),
                    OnFail::Report(owned("ERROR in pre_install with creating fox-tmp directory = ")),
                ),
            },
        )
    } else if !root.is_empty() {
        if i == 3 {
            Some(make_always(Kind::Spawn(make_cmd("sudo", burn_args_exec(home, target)), owned(root))))
        } else if i == 4 {
            let v = vec![owned("2")];
            assert(v.deep_view() =~= seq!["2"@]);
            Some(make_quiet("sleep", v))
        } else if i == 5 {
            Some(
                make_always(
                    Kind::Wait(
                        OnFail::Report(
                            owned("ERROR in pre_install with Burning ISO with DD & piping root = "),
                        ),
                    ),
                ),
            )
        } else if i == 6 {
            let v: Vec<String> = Vec::new();
            assert(v.deep_view() =~= seq![]);
            Some(make_quiet("sync", v))
        } else {
            None
        }
    } else {
        if i == 3 {
            Some(
                make_checked(
                    "sudo",
                    burn_args_exec(home, target),
                    "ERROR in pre_install with Burning ISO with DD & blank sysPass = ",
                ),
            )
        } else if i == 4 {
            let v: Vec<String> = Vec::new();
            assert(v.deep_view() =~= seq![]);
            Some(make_quiet("sync", v))
        } else {
            None
        }
    }
}

} // verus!
