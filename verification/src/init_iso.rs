use vstd::prelude::*;
use crate::step::{
    always, checked, cmd, guarded, make_always, make_checked, make_cmd, make_guarded, make_probe,
    make_quiet, opt_view, probe, quiet, ExecStep, Guard, Kind, OnFail, SpecStep,
};
use crate::text::{join, join3, owned, words1, words2, words3};

verus! {

/// The application directory, under the home directory.
pub open spec fn fox_dir(home: Seq<char>) -> Seq<char> {
    home + "/fox"@
}

/// Where the desktop installer appears when the system mounts it.
pub open spec fn stale_mount(user: Seq<char>) -> Seq<char> {
    "/media/"@ + user + "/Ubuntu 22.04.3 LTS amd64"@
}

/// The packages whose archives are fetched for the hardware wallet.
pub open spec fn wallet_packages() -> Seq<Seq<char>> {
    seq![
        "wodim"@, "genisoimage"@, "ssss"@, "qrencode"@, "libqrencode4"@, "xclip"@, "tor"@,
        "zbar-tools"@, "libzbar0"@, "libmagickwand-6.q16-6"@, "imagemagick-6-common"@,
        "libmagickcore-6.q16-6"@, "libheif1"@, "liblqr-1-0"@, "libaom3"@, "libdav1d5"@,
        "libde265-0"@, "libx265-199"@,
    ]
}

/// The shell line that turns the installer into one with a persistent session.
pub open spec fn sed1_line() -> Seq<char> {
    "< ubuntu-22.04.3-desktop-amd64.iso sed 's/maybe-ubiquity/  persistent  /' > persistent-ubuntu1.iso"@
}

/// The shell line that shortens the boot menu's wait.
pub open spec fn sed2_line() -> Seq<char> {
    "< persistent-ubuntu1.iso sed 's/set timeout=30/set timeout=1 /' > persistent-ubuntu.iso"@
}

/// Run `echo -e line` with its output written to `file`; a failure stops the
/// procedure with `prefix` followed by the standard error.
pub open spec fn write_script(line: Seq<char>, file: Seq<char>, prefix: Seq<char>) -> SpecStep {
    always(
        Kind::Run(
            crate::step::CmdSpec { program: "echo"@, args: seq!["-e"@, line], stdout_to: Some(file) },
            OnFail::Report(prefix),
        ),
    )
}

/// The steps that build the image for the hardware wallets, in
/// `home + "/fox"`: fetch what it needs, then patch the desktop installer.
pub open spec fn init_iso_step(home: Seq<char>, user: Seq<char>, i: int) -> Option<SpecStep> {
    if i == 0 {
        Some(quiet("sudo"@, seq!["apt"@, "-y"@, "update"@]))
    } else if i == 1 {
        Some(quiet("sudo"@, seq!["apt"@, "-y"@, "upgrade"@]))
    } else if i == 2 {
        Some(quiet("sudo"@, seq!["apt"@, "install"@, "curl"@]))
    } else if i == 3 {
        Some(quiet("sudo"@, seq!["apt"@, "-y"@, "update"@]))
    } else if i == 4 {
        Some(always(Kind::CurrentDir("Error obtaining initial cwd buf "@)))
    } else if i == 5 {
        Some(probe(fox_dir(home)))
    } else if i == 6 {
        Some(guarded(Guard::IfMissing(5), checked("mkdir"@, seq![fox_dir(home)], "ERROR in init iso with creating fox directory = "@)))
    } else if i == 7 {
        Some(probe(stale_mount(user)))
    } else if i == 8 {
        Some(guarded(Guard::IfFound(7), checked("sudo"@, seq!["umount"@, stale_mount(user)], "ERROR in init iso with unmounting stale ubuntu iso = "@)))
    } else if i == 9 {
        Some(always(Kind::ChangeDir(fox_dir(home))))
    } else if i == 10 {
        Some(quiet("sudo"@, seq!["apt"@, "download"@] + wallet_packages()))
    } else if i == 11 {
        Some(probe(home + "/fox/ubuntu-22.04.3-desktop-amd64.iso"@))
    } else if i == 12 {
        Some(probe(home + "/fox/bitcoin-25.0-x86_64-linux-gnu.tar.gz"@))
    } else if i == 13 {
        Some(guarded(Guard::IfMissing(11), checked("curl"@, seq!["-o"@, "ubuntu-22.04.3-desktop-amd64.iso"@, "https://releases.ubuntu.com/jammy/ubuntu-22.04.3-desktop-amd64.iso"@], "ERROR in init iso with downloading ubuntu iso = "@)))
    } else if i == 14 {
        Some(guarded(Guard::IfMissing(12), checked("wget"@, seq!["https://bitcoincore.org/bin/bitcoin-core-25.0/bitcoin-25.0-x86_64-linux-gnu.tar.gz"@], "ERROR in init iso with downloading bitcoin core = "@)))
    } else if i == 15 {
        Some(quiet("sudo"@, seq!["rm"@, "persistent-ubuntu.iso"@]))
    } else if i == 16 {
        Some(quiet("sudo"@, seq!["rm"@, "persistent-ubuntu1.iso"@]))
    } else if i == 17 {
        Some(probe(home + "/fox/scripts"@))
    } else if i == 18 {
        Some(guarded(Guard::IfMissing(17), checked("mkdir"@, seq![home + "/fox/scripts"@], "ERROR in creating the scripts directory "@)))
    } else if i == 19 {
        Some(write_script(sed1_line(), home + "/fox/scripts/sed1.sh"@, "ERROR with creating sed1.sh: "@))
    } else if i == 20 {
        Some(write_script(sed2_line(), home + "/fox/scripts/sed2.sh"@, "ERROR with creating sed2.sh: "@))
    } else if i == 21 {
        Some(checked("bash"@, seq![home + "/fox/scripts/sed1.sh"@], "ERROR in running sed1 "@))
    } else if i == 22 {
        Some(probe(home + "/fox/persistent-ubuntu1.iso"@))
    } else if i == 23 {
        Some(guarded(Guard::IfMissing(22), always(Kind::Abort("ERROR in running sed1, script completed but did not create iso"@))))
    } else if i == 24 {
        Some(checked("bash"@, seq![home + "/fox/scripts/sed2.sh"@], "ERROR in running sed2 "@))
    } else if i == 25 {
        Some(probe(home + "/fox/persistent-ubuntu.iso"@))
    } else if i == 26 {
        Some(guarded(Guard::IfMissing(25), always(Kind::Abort("ERROR in running sed2, script completed but did not create iso"@))))
    } else if i == 27 {
        Some(quiet("sudo"@, seq!["rm"@, "persistent-ubuntu1.iso"@]))
    } else if i == 28 {
        Some(always(Kind::ChangeDir(home)))
    } else {
        None
    }
}

/// The number of steps of the image build.
pub open spec fn init_iso_len() -> nat {
    29
}

/// What the image build answers when every step went through.
pub open spec fn init_iso_done() -> Seq<char> {
    "SUCCESS in init_iso"@
}

fn package_words() -> (res: Vec<String>)
    ensures
        res.deep_view() == seq!["apt"@, "download"@] + wallet_packages(),
{
    let v = vec![
        owned("apt"), owned("download"),
        owned("wodim"), owned("genisoimage"), owned("ssss"), owned("qrencode"), owned("libqrencode4"),
        owned("xclip"), owned("tor"), owned("zbar-tools"), owned("libzbar0"),
        owned("libmagickwand-6.q16-6"), owned("imagemagick-6-common"), owned("libmagickcore-6.q16-6"),
        owned("libheif1"), owned("liblqr-1-0"), owned("libaom3"), owned("libdav1d5"),
        owned("libde265-0"), owned("libx265-199"),
    ];
    assert(v.deep_view() =~= seq!["apt"@, "download"@] + wallet_packages());
    v
}

fn write_script_exec(line: &str, file: String, prefix: &str) -> (res: ExecStep)
    ensures
        res@ == write_script(line@, file@, prefix@),
{
    let args = words2(owned("-e"), owned(line));
    make_always(
        Kind::Run(
            crate::step::Cmd { program: owned("echo"), args, stdout_to: Some(file) },
            OnFail::Report(owned(prefix)),
        ),
    )
}

fn apt(a: &str, b: &str) -> (res: ExecStep)
    ensures
        res@ == quiet("sudo"@, seq!["apt"@, a@, b@]),
{
    make_quiet("sudo", words3(owned("apt"), owned(a), owned(b)))
}

/// Step `i` of the image build, or `None` past its end.
pub fn init_iso_step_exec(home: &str, user: &str, i: usize) -> (res: Option<ExecStep>)
    ensures
        opt_view(res) == init_iso_step(home@, user@, i as int),
{
    if i == 0 {
        Some(apt("-y", "update"))
    } else if i == 1 {
        Some(apt("-y", "upgrade"))
    } else if i == 2 {
        Some(apt("install", "curl"))
    } else if i == 3 {
        Some(apt("-y", "update"))
    } else if i == 4 {
        Some(make_always(Kind::CurrentDir(owned("Error obtaining initial cwd buf "))))
    } else if i == 5 {
        Some(make_probe(join(home, "/fox")))
    } else if i == 6 {
        Some(make_guarded(Guard::IfMissing(5), make_checked("mkdir", words1(join(home, "/fox")), "ERROR in init iso with creating fox directory = ")))
    } else if i == 7 {
        Some(make_probe(join3("/media/", user, "/Ubuntu 22.04.3 LTS amd64")))
    } else if i == 8 {
        let args = words2(owned("umount"), join3("/media/", user, "/Ubuntu 22.04.3 LTS amd64"));
        Some(make_guarded(Guard::IfFound(7), make_checked("sudo", args, "ERROR in init iso with unmounting stale ubuntu iso = ")))
    } else if i == 9 {
        Some(make_always(Kind::ChangeDir(join(home, "/fox"))))
    } else if i == 10 {
        Some(make_quiet("sudo", package_words()))
    } else if i == 11 {
        Some(make_probe(join(home, "/fox/ubuntu-22.04.3-desktop-amd64.iso")))
    } else if i == 12 {
        Some(make_probe(join(home, "/fox/bitcoin-25.0-x86_64-linux-gnu.tar.gz")))
    } else if i == 13 {
        let args = words3(owned("-o"), owned("ubuntu-22.04.3-desktop-amd64.iso"), owned("https://releases.ubuntu.com/jammy/ubuntu-22.04.3-desktop-amd64.iso"));
        Some(make_guarded(Guard::IfMissing(11), make_checked("curl", args, "ERROR in init iso with downloading ubuntu iso = ")))
    } else if i == 14 {
        let args = words1(owned("https://bitcoincore.org/bin/bitcoin-core-25.0/bitcoin-25.0-x86_64-linux-gnu.tar.gz"));
        Some(make_guarded(Guard::IfMissing(12), make_checked("wget", args, "ERROR in init iso with downloading bitcoin core = ")))
    } else if i == 15 {
        Some(make_quiet("sudo", words2(owned("rm"), owned("persistent-ubuntu.iso"))))
    } else if i == 16 {
        Some(make_quiet("sudo", words2(owned("rm"), owned("persistent-ubuntu1.iso"))))
    } else if i == 17 {
        Some(make_probe(join(home, "/fox/scripts")))
    } else if i == 18 {
        Some(make_guarded(Guard::IfMissing(17), make_checked("mkdir", words1(join(home, "/fox/scripts")), "ERROR in creating the scripts directory ")))
    } else if i == 19 {
        let line = "< ubuntu-22.04.3-desktop-amd64.iso sed 's/maybe-ubiquity/  persistent  /' > persistent-ubuntu1.iso";
        Some(write_script_exec(line, join(home, "/fox/scripts/sed1.sh"), "ERROR with creating sed1.sh: "))
    } else if i == 20 {
        let line = "< persistent-ubuntu1.iso sed 's/set timeout=30/set timeout=1 /' > persistent-ubuntu.iso";
        Some(write_script_exec(line, join(home, "/fox/scripts/sed2.sh"), "ERROR with creating sed2.sh: "))
    } else if i == 21 {
        Some(make_checked("bash", words1(join(home, "/fox/scripts/sed1.sh")), "ERROR in running sed1 "))
    } else if i == 22 {
        Some(make_probe(join(home, "/fox/persistent-ubuntu1.iso")))
    } else if i == 23 {
        Some(make_guarded(Guard::IfMissing(22), make_always(Kind::Abort(owned("ERROR in running sed1, script completed but did not create iso")))))
    } else if i == 24 {
        Some(make_checked("bash", words1(join(home, "/fox/scripts/sed2.sh")), "ERROR in running sed2 "))
    } else if i == 25 {
        Some(make_probe(join(home, "/fox/persistent-ubuntu.iso")))
    } else if i == 26 {
        Some(make_guarded(Guard::IfMissing(25), make_always(Kind::Abort(owned("ERROR in running sed2, script completed but did not create iso")))))
    } else if i == 27 {
        Some(make_quiet("sudo", words2(owned("rm"), owned("persistent-ubuntu1.iso"))))
    } else if i == 28 {
        Some(make_always(Kind::ChangeDir(owned(home))))
    } else {
        None
    }
}

} // verus!
