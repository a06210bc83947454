use vstd::prelude::*;
use vstd::string::*;
use crate::step::{
    always, checked, guarded, make_always, make_checked, make_guarded, make_probe, make_quiet,
    opt_view, probe, quiet, Cmd, CmdSpec, ExecStep, Guard, Kind, OnFail, SpecStep,
};
use crate::text::{join, join3, owned, words0, words1, words2, words3, words4};

verus! {

/// The mount point of the device's persistent partition.
pub open spec fn writable(user: Seq<char>) -> Seq<char> {
    "/media/"@ + user + "/writable"@
}

/// The wallet user's home directory inside the persistent partition.
pub open spec fn wallet_home(user: Seq<char>) -> Seq<char> {
    "/media/"@ + user + "/writable/upper/home/ubuntu"@
}

/// Where the package archives are copied, inside the persistent partition.
pub open spec fn deps_dir(user: Seq<char>) -> Seq<char> {
    "/media/"@ + user + "/writable/upper/home/ubuntu/dependencies"@
}

/// The script that adds the persistent partition to the device.
pub open spec fn partition_script(home: Seq<char>) -> Seq<char> {
    home + "/fox/scripts/create_partition.sh"@
}

/// The line written into [`partition_script`]: `fdisk` adds partition 4 on `target`.
pub open spec fn partition_line(target: Seq<char>) -> Seq<char> {
    "(\necho n\necho 4\necho \necho \necho w\n) | sudo fdisk --wipe=always "@ + target
}

/// The word written for the `awake` setting.
pub open spec fn awake_word(awake: bool) -> Seq<char> {
    if awake {
        "true"@
    } else {
        "false"@
    }
}

/// The device configuration that the wallet reads at boot.
pub open spec fn config_text(number: Seq<char>, setup: Seq<char>, awake: bool) -> Seq<char> {
    "type=hardwareWallet\nhwNumber="@ + number + "\nsetupStep="@ + setup + "\nawake="@ + awake_word(
        awake,
    )
}

/// The node configuration written for the wallet's bitcoin daemon.
pub open spec fn bitcoin_conf() -> Seq<char> {
    "rpcuser=rpcuser\nrpcpassword=477028\nspendzeroconfchange=1"@
}

/// The line printed before the device configuration is written.
pub open spec fn config_notice(number: Seq<char>, setup: Seq<char>) -> Seq<char> {
    "creating bootable ubuntu device writing config...HW "@ + number + " Setupstep "@ + setup
}

/// The text with which the procedure stops where the working directory has no textual form.
pub open spec fn no_cwd_text() -> Seq<char> {
    "the working directory is not valid unicode"@
}

/// The package archives copied onto the device (file name under
/// `home + "/fox/"`, and the name used in the error message), by number.
pub open spec fn dependency(k: int) -> (Seq<char>, Seq<char>) {
    if k == 0 {
        ("genisoimage_9%3a1.1.11-3.2ubuntu1_amd64.deb"@, "genisoimage"@)
    } else if k == 1 {
        ("ssss_0.5-5_amd64.deb"@, "ssss"@)
    } else if k == 2 {
        ("wodim_9%3a1.1.11-3.2ubuntu1_amd64.deb"@, "wodim"@)
    } else if k == 3 {
        ("libqrencode4_4.1.1-1_amd64.deb"@, "qrencode"@)
    } else if k == 4 {
        ("qrencode_4.1.1-1_amd64.deb"@, "qrencode"@)
    } else if k == 5 {
        ("xclip_0.13-2_amd64.deb"@, "X clip"@)
    } else if k == 6 {
        ("tor_0.4.6.10-1_amd64.deb"@, "tor"@)
    } else if k == 7 {
        ("libzbar0_0.23.92-4build2_amd64.deb"@, "libzbar0"@)
    } else if k == 8 {
        ("imagemagick-6-common_8%3a6.9.11.60+dfsg-1.3ubuntu0.22.04.3_all.deb"@, "image magick"@)
    } else if k == 9 {
        ("libaom3_3.3.0-1_amd64.deb"@, "libaom3"@)
    } else if k == 10 {
        ("libdav1d5_0.9.2-1_amd64.deb"@, "libdav1d5"@)
    } else if k == 11 {
        ("libde265-0_1.0.8-1_amd64.deb"@, "libde265-0"@)
    } else if k == 12 {
        ("libx265-199_3.5-2_amd64.deb"@, "libx265-199"@)
    } else if k == 13 {
        ("libheif1_1.12.0-2build1_amd64.deb"@, "libheif1"@)
    } else if k == 14 {
        ("liblqr-1-0_0.4.2-2.1_amd64.deb"@, "liblqr"@)
    } else if k == 15 {
        ("libmagickcore-6.q16-6_8%3a6.9.11.60+dfsg-1.3ubuntu0.22.04.3_amd64.deb"@, "libmagickcore"@)
    } else if k == 16 {
        ("libmagickwand-6.q16-6_8%3a6.9.11.60+dfsg-1.3ubuntu0.22.04.3_amd64.deb"@, "libmagickwand"@)
    } else {
        ("zbar-tools_0.23.92-4build2_amd64.deb"@, "zbar-tools"@)
    }
}

/// The number of package archives copied onto the device.
pub open spec fn dependency_count() -> nat {
    18
}

/// The step that copies the package archive `dep` into [`deps_dir`].
pub open spec fn copy_step(home: Seq<char>, user: Seq<char>, dep: (Seq<char>, Seq<char>)) -> SpecStep {
    checked(
        "cp"@,
        seq![home + "/fox/"@ + dep.0, deps_dir(user)],
        "ERROR in create_bootable with copying "@ + dep.1 + " = "@,
    )
}

/// Run `echo` with `args`, its output written to `file`.
pub open spec fn echo_into(args: Seq<Seq<char>>, file: Seq<char>, on_fail: OnFail<Seq<char>>) -> SpecStep {
    always(Kind::Run(CmdSpec { program: "echo"@, args, stdout_to: Some(file) }, on_fail))
}

/// The working directory as text; empty where there is none.
pub open spec fn cwd_text(cwd: Option<Seq<char>>) -> Seq<char> {
    match cwd {
        Some(c) => c,
        None => Seq::empty(),
    }
}

/// The first steps of making a hardware wallet: find the device, copy the
/// image onto it, and add the persistent partition. `target` is the device
/// found last.
pub open spec fn bootable_head(home: Seq<char>, baseline: Seq<char>, target: Seq<char>, i: int) -> SpecStep {
    if i == 0 {
        always(Kind::CurrentDir("ERROR in create_bootable with obtaining initial cwd buf "@))
    } else if i == 1 {
        always(Kind::Detect(baseline))
    } else if i == 2 {
        quiet("sudo"@, seq!["umount"@, target])
    } else if i == 3 {
        always(Kind::Detect(baseline))
    } else if i == 4 {
        checked(
            "sudo"@,
            seq![
                "dd"@,
                "if="@ + home + "/fox/persistent-ubuntu.iso"@,
                "of="@ + target,
                "bs=4M"@,
                "oflag=sync"@,
                "status=progress"@,
            ],
            "ERROR in create_bootable with Burning ISO with DD = "@,
        )
    } else if i == 5 {
        quiet("sync"@, seq![])
    } else if i == 6 {
        quiet("sudo"@, seq!["umount"@, target])
    } else if i == 7 {
        always(Kind::Detect(baseline))
    } else if i == 8 {
        probe(partition_script(home))
    } else if i == 9 {
        guarded(
            Guard::IfFound(8),
            checked(
                "sudo"@,
                seq!["rm"@, partition_script(home)],
                "ERROR in create_bootable with removing stale create_partition.sh script: "@,
            ),
        )
    } else if i == 10 {
        echo_into(
            seq!["-e"@, partition_line(target)],
            partition_script(home),
            OnFail::Report("ERROR in create_bootable with creating create_partition.sh: "@),
        )
    } else if i == 11 {
        checked(
            "sudo"@,
            seq!["chmod"@, "+x"@, partition_script(home)],
            "ERROR in create_bootable with making create_partition.sh executable: "@,
        )
    } else if i == 12 {
        quiet("bash"@, seq![partition_script(home)])
    } else if i == 13 {
        checked(
            "rm"@,
            seq![partition_script(home)],
            "ERROR in create_bootable with removing create_partition.sh: "@,
        )
    } else if i == 14 {
        quiet("sleep"@, seq!["2"@])
    } else if i == 15 {
        quiet("sync"@, seq![])
    } else if i == 16 {
        quiet("sudo"@, seq!["umount"@, target])
    } else if i == 17 {
        quiet("sudo"@, seq!["umount"@, target + "1"@])
    } else if i == 18 {
        quiet("sudo"@, seq!["umount"@, target + "2"@])
    } else if i == 19 {
        quiet("sudo"@, seq!["umount"@, target + "3"@])
    } else if i == 20 {
        quiet("sudo"@, seq!["umount"@, target + "4"@])
    } else if i == 21 {
        quiet("sudo"@, seq!["partprobe"@])
    } else if i == 22 {
        quiet("sleep"@, seq!["2"@])
    } else {
        always(Kind::Detect(baseline))
    }
}

/// The middle steps: format, label and mount the persistent partition, and
/// lay out the wallet user's directories on it.
pub open spec fn bootable_middle(user: Seq<char>, target: Seq<char>, i: int) -> SpecStep {
    if i == 24 {
        checked(
            "sudo"@,
            seq!["mkfs.ext4"@, target + "4"@],
            "ERROR in create_bootable with making partition file system: "@,
        )
    } else if i == 25 {
        always(
            Kind::Run(
                crate::step::cmd("sudo"@, seq!["e2label"@, target + "4"@, "writable"@]),
                OnFail::Say("ERROR in create_bootable with labeling writable partition"@),
            ),
        )
    } else if i == 26 {
        quiet("sudo"@, seq!["umount"@, writable(user)])
    } else if i == 27 {
        quiet("sudo"@, seq!["rm"@, "-r"@, writable(user)])
    } else if i == 28 {
        checked(
            "sudo"@,
            seq!["mkdir"@, writable(user)],
            "ERROR in create_bootable with creating writable directory = "@,
        )
    } else if i == 29 {
        checked(
            "sudo"@,
            seq!["mount"@, target + "4"@, writable(user)],
            "ERROR in create_bootable with mounting writable partition = "@,
        )
    } else if i == 30 {
        checked(
            "sudo"@,
            seq!["chmod"@, "777"@, writable(user)],
            "ERROR in create_bootable with opening file permissions of persistent dir = "@,
        )
    } else if i == 31 {
        checked(
            "mkdir"@,
            seq!["-p"@, "/media/"@ + user + "/writable/upper/home/ubuntu/fox"@],
            "ERROR in icreate_bootable with creating writable/upper/home/user directory = "@,
        )
    } else {
        quiet("mkdir"@, seq![deps_dir(user)])
    }
}

/// The last steps: copy the program and the node onto the device, write the
/// configurations, and unmount the persistent partition. `cwd` is the
/// working directory read at the start.
pub open spec fn bootable_tail(
    home: Seq<char>,
    user: Seq<char>,
    number: Seq<char>,
    setup: Seq<char>,
    awake: bool,
    cwd: Option<Seq<char>>,
    i: int,
) -> SpecStep {
    if i == 51 {
        guarded(Guard::IfNoCwd, always(Kind::Halt(no_cwd_text())))
    } else if i == 52 {
        checked(
            "cp"@,
            seq![
                cwd_text(cwd) + "/Fox"@,
                wallet_home(user),
            ],
            "ERROR in create_bootable with copying fox binary = "@,
        )
    } else if i == 53 {
        checked(
            "tar"@,
            seq!["-xzf"@, home + "/fox/bitcoin-25.0-x86_64-linux-gnu.tar.gz"@, "-C"@, wallet_home(user)],
            "ERROR in create_bootable with extracting bitcoin core = "@,
        )
    } else if i == 54 {
        checked(
            "mkdir"@,
            seq!["/media/"@ + user + "/writable/upper/home/ubuntu/.bitcoin"@],
            "ERROR in create_bootable with making target .bitcoin dir = "@,
        )
    } else if i == 55 {
        echo_into(
            seq!["-e"@, bitcoin_conf()],
            "/media/"@ + user + "/writable/upper/home/ubuntu/.bitcoin/bitcoin.conf"@,
            OnFail::Report("ERROR in create_bootable, with creating bitcoin.conf = "@),
        )
    } else if i == 56 {
        echo_into(
            seq![config_text(number, setup, awake)],
            "/media/"@ + user + "/writable/upper/home/ubuntu/config.txt"@,
            OnFail::Ignore,
        )
    } else if i == 57 {
        always(Kind::Print(config_notice(number, setup)))
    } else if i == 58 {
        quiet("sleep"@, seq!["3"@])
    } else if i == 59 {
        checked(
            "sudo"@,
            seq!["chmod"@, "777"@, "/media/"@ + user + "/writable/upper/home/ubuntu/config.txt"@],
            "ERROR in creating bootable with opening file permissions = "@,
        )
    } else if i == 60 {
        quiet("sync"@, seq![])
    } else {
        checked("sudo"@, seq!["umount"@, writable(user)], "ERROR in create_bootable with unmounting writable = "@)
    }
}

/// The index of the first copy of a package archive.
pub open spec fn first_copy() -> int {
    33
}

/// The steps that make a hardware wallet out of the device that was attached
/// after the listing `baseline` was made. `target` is the device found last,
/// `cwd` the working directory read at the start.
pub open spec fn bootable_step(
    home: Seq<char>,
    user: Seq<char>,
    number: Seq<char>,
    setup: Seq<char>,
    awake: bool,
    baseline: Seq<char>,
    target: Seq<char>,
    cwd: Option<Seq<char>>,
    i: int,
) -> Option<SpecStep> {
    if 0 <= i < 24 {
        Some(bootable_head(home, baseline, target, i))
    } else if 24 <= i < first_copy() {
        Some(bootable_middle(user, target, i))
    } else if first_copy() <= i < first_copy() + dependency_count() {
        Some(copy_step(home, user, dependency(i - first_copy())))
    } else if first_copy() + dependency_count() <= i < bootable_len() {
        Some(bootable_tail(home, user, number, setup, awake, cwd, i))
    } else {
        None
    }
}

/// The number of steps of making a hardware wallet.
pub open spec fn bootable_len() -> nat {
    62
}

/// What making a hardware wallet answers when every step went through.
pub open spec fn bootable_done() -> Seq<char> {
    "SUCCESS in creating bootable device"@
}

} // verus!

verus! {

/// Executable form of [`awake_word`].
pub fn awake_word_exec(awake: bool) -> (res: &'static str)
    ensures
        res@ == awake_word(awake),
{
    if awake {
        "true"
    } else {
        "false"
    }
}

/// Executable form of [`config_text`].
pub fn config_text_exec(number: &str, setup: &str, awake: bool) -> (res: String)
    ensures
        res@ == config_text(number@, setup@, awake),
{
    let s = String::from_str("type=hardwareWallet\nhwNumber=");
    let s = s.concat(number);
    let s = s.concat("\nsetupStep=");
    let s = s.concat(setup);
    let s = s.concat("\nawake=");
    s.concat(awake_word_exec(awake))
}

/// Executable form of [`config_notice`].
pub fn config_notice_exec(number: &str, setup: &str) -> (res: String)
    ensures
        res@ == config_notice(number@, setup@),
{
    let s = String::from_str("creating bootable ubuntu device writing config...HW ");
    let s = s.concat(number);
    let s = s.concat(" Setupstep ");
    s.concat(setup)
}

/// Executable form of [`dependency`].
pub fn dependency_exec(k: usize) -> (res: (&'static str, &'static str))
    ensures
        (res.0@, res.1@) == dependency(k as int),
{
    if k == 0 {
        ("genisoimage_9%3a1.1.11-3.2ubuntu1_amd64.deb", "genisoimage")
    } else if k == 1 {
        ("ssss_0.5-5_amd64.deb", "ssss")
    } else if k == 2 {
        ("wodim_9%3a1.1.11-3.2ubuntu1_amd64.deb", "wodim")
    } else if k == 3 {
        ("libqrencode4_4.1.1-1_amd64.deb", "qrencode")
    } else if k == 4 {
        ("qrencode_4.1.1-1_amd64.deb", "qrencode")
    } else if k == 5 {
        ("xclip_0.13-2_amd64.deb", "X clip")
    } else if k == 6 {
        ("tor_0.4.6.10-1_amd64.deb", "tor")
    } else if k == 7 {
        ("libzbar0_0.23.92-4build2_amd64.deb", "libzbar0")
    } else if k == 8 {
        ("imagemagick-6-common_8%3a6.9.11.60+dfsg-1.3ubuntu0.22.04.3_all.deb", "image magick")
    } else if k == 9 {
        ("libaom3_3.3.0-1_amd64.deb", "libaom3")
    } else if k == 10 {
        ("libdav1d5_0.9.2-1_amd64.deb", "libdav1d5")
    } else if k == 11 {
        ("libde265-0_1.0.8-1_amd64.deb", "libde265-0")
    } else if k == 12 {
        ("libx265-199_3.5-2_amd64.deb", "libx265-199")
    } else if k == 13 {
        ("libheif1_1.12.0-2build1_amd64.deb", "libheif1")
    } else if k == 14 {
        ("liblqr-1-0_0.4.2-2.1_amd64.deb", "liblqr")
    } else if k == 15 {
        ("libmagickcore-6.q16-6_8%3a6.9.11.60+dfsg-1.3ubuntu0.22.04.3_amd64.deb", "libmagickcore")
    } else if k == 16 {
        ("libmagickwand-6.q16-6_8%3a6.9.11.60+dfsg-1.3ubuntu0.22.04.3_amd64.deb", "libmagickwand")
    } else {
        ("zbar-tools_0.23.92-4build2_amd64.deb", "zbar-tools")
    }
}

fn echo_into_exec(args: Vec<String>, file: String, on_fail: OnFail<String>) -> (res: ExecStep)
    ensures
        res@ == echo_into(args.deep_view(), file@, on_fail@),
{
    make_always(Kind::Run(Cmd { program: owned("echo"), args, stdout_to: Some(file) }, on_fail))
}

fn umount(path: String) -> (res: ExecStep)
    ensures
        res@ == quiet("sudo"@, seq!["umount"@, path@]),
{
    make_quiet("sudo", words2(owned("umount"), path))
}

/// Executable form of [`bootable_head`].
fn bootable_head_exec(home: &str, baseline: &str, target: &str, i: usize) -> (res: ExecStep)
    requires
        i < 24,
    ensures
        res@ == bootable_head(home@, baseline@, target@, i as int),
{
    if i == 0 {
        make_always(Kind::CurrentDir(owned("ERROR in create_bootable with obtaining initial cwd buf ")))
    } else if i == 1 || i == 3 || i == 7 || i == 23 {
        make_always(Kind::Detect(owned(baseline)))
    } else if i == 2 || i == 6 || i == 16 {
        umount(owned(target))
    } else if i == 4 {
        let v = vec![
            owned("dd"),
            join3("if=", home, "/fox/persistent-ubuntu.iso"),
            join("of=", target),
            owned("bs=4M"),
            owned("oflag=sync"),
            owned("status=progress"),
        ];
        assert(v.deep_view() =~= seq![
            "dd"@,
            "if="@ + home@ + "/fox/persistent-ubuntu.iso"@,
            "of="@ + target@,
            "bs=4M"@,
            "oflag=sync"@,
            "status=progress"@,
        ]);
        make_checked("sudo", v, "ERROR in create_bootable with Burning ISO with DD = ")
    } else if i == 5 || i == 15 {
        make_quiet("sync", words0())
    } else if i == 8 {
        make_probe(join(home, "/fox/scripts/create_partition.sh"))
    } else if i == 9 {
        make_guarded(
            Guard::IfFound(8),
            make_checked(
                "sudo",
                words2(owned("rm"), join(home, "/fox/scripts/create_partition.sh")),
                "ERROR in create_bootable with removing stale create_partition.sh script: ",
            ),
        )
    } else if i == 10 {
        let line = join("(\necho n\necho 4\necho \necho \necho w\n) | sudo fdisk --wipe=always ", target);
        echo_into_exec(
            words2(owned("-e"), line),
            join(home, "/fox/scripts/create_partition.sh"),
            OnFail::Report(owned("ERROR in create_bootable with creating create_partition.sh: ")),
        )
    } else if i == 11 {
        make_checked(
            "sudo",
            words3(owned("chmod"), owned("+x"), join(home, "/fox/scripts/create_partition.sh")),
            "ERROR in create_bootable with making create_partition.sh executable: ",
        )
    } else if i == 12 {
        make_quiet("bash", words1(join(home, "/fox/scripts/create_partition.sh")))
    } else if i == 13 {
        make_checked(
            "rm",
            words1(join(home, "/fox/scripts/create_partition.sh")),
            "ERROR in create_bootable with removing create_partition.sh: ",
        )
    } else if i == 14 || i == 22 {
        make_quiet("sleep", words1(owned("2")))
    } else if i == 17 {
        umount(join(target, "1"))
    } else if i == 18 {
        umount(join(target, "2"))
    } else if i == 19 {
        umount(join(target, "3"))
    } else if i == 20 {
        umount(join(target, "4"))
    } else {
        make_quiet("sudo", words1(owned("partprobe")))
    }
}

/// Executable form of [`bootable_middle`].
fn bootable_middle_exec(user: &str, target: &str, i: usize) -> (res: ExecStep)
    requires
        24 <= i < 33,
    ensures
        res@ == bootable_middle(user@, target@, i as int),
{
    if i == 24 {
        make_checked(
            "sudo",
            words2(owned("mkfs.ext4"), join(target, "4")),
            "ERROR in create_bootable with making partition file system: ",
        )
    } else if i == 25 {
        make_always(
            Kind::Run(
                crate::step::make_cmd("sudo", words3(owned("e2label"), join(target, "4"), owned("writable"))),
                OnFail::Say(owned("ERROR in create_bootable with labeling writable partition")),
            ),
        )
    } else if i == 26 {
        umount(join3("/media/", user, "/writable"))
    } else if i == 27 {
        make_quiet("sudo", words3(owned("rm"), owned("-r"), join3("/media/", user, "/writable")))
    } else if i == 28 {
        make_checked(
            "sudo",
            words2(owned("mkdir"), join3("/media/", user, "/writable")),
            "ERROR in create_bootable with creating writable directory = ",
        )
    } else if i == 29 {
        make_checked(
            "sudo",
            words3(owned("mount"), join(target, "4"), join3("/media/", user, "/writable")),
            "ERROR in create_bootable with mounting writable partition = ",
        )
    } else if i == 30 {
        make_checked(
            "sudo",
            words3(owned("chmod"), owned("777"), join3("/media/", user, "/writable")),
            "ERROR in create_bootable with opening file permissions of persistent dir = ",
        )
    } else if i == 31 {
        make_checked(
            "mkdir",
            words2(owned("-p"), join3("/media/", user, "/writable/upper/home/ubuntu/fox")),
            "ERROR in icreate_bootable with creating writable/upper/home/user directory = ",
        )
    } else {
        make_quiet("mkdir", words1(join3("/media/", user, "/writable/upper/home/ubuntu/dependencies")))
    }
}

/// Executable form of [`copy_step`] for package archive `k`.
fn copy_step_exec(home: &str, user: &str, k: usize) -> (res: ExecStep)
    ensures
        res@ == copy_step(home@, user@, dependency(k as int)),
{
    let (file, label) = dependency_exec(k);
    let args = words2(
        join3(home, "/fox/", file),
        join3("/media/", user, "/writable/upper/home/ubuntu/dependencies"),
    );
    let prefix = join3("ERROR in create_bootable with copying ", label, " = ");
    make_checked("cp", args, prefix.as_str())
}

/// Executable form of [`bootable_tail`].
fn bootable_tail_exec(
    home: &str,
    user: &str,
    number: &str,
    setup: &str,
    awake: bool,
    cwd: &Option<String>,
    i: usize,
) -> (res: ExecStep)
    requires
        51 <= i < 62,
    ensures
        res@ == bootable_tail(home@, user@, number@, setup@, awake, cwd.deep_view(), i as int),
{
    if i == 51 {
        make_guarded(Guard::IfNoCwd, make_always(Kind::Halt(owned("the working directory is not valid unicode"))))
    } else if i == 52 {
        let from = match cwd {
            Some(c) => join(c.as_str(), "/Fox"),
            None => {
                let f = owned("/Fox");
                assert(f@ =~= Seq::<char>::empty() + "/Fox"@);
                f
            },
        };
        make_checked(
            "cp",
            words2(from, join3("/media/", user, "/writable/upper/home/ubuntu")),
            "ERROR in create_bootable with copying fox binary = ",
        )
    } else if i == 53 {
        make_checked(
            "tar",
            words4(
                owned("-xzf"),
                join(home, "/fox/bitcoin-25.0-x86_64-linux-gnu.tar.gz"),
                owned("-C"),
                join3("/media/", user, "/writable/upper/home/ubuntu"),
            ),
            "ERROR in create_bootable with extracting bitcoin core = ",
        )
    } else if i == 54 {
        make_checked(
            "mkdir",
            words1(join3("/media/", user, "/writable/upper/home/ubuntu/.bitcoin")),
            "ERROR in create_bootable with making target .bitcoin dir = ",
        )
    } else if i == 55 {
        echo_into_exec(
            words2(owned("-e"), owned("rpcuser=rpcuser\nrpcpassword=477028\nspendzeroconfchange=1")),
            join3("/media/", user, "/writable/upper/home/ubuntu/.bitcoin/bitcoin.conf"),
            OnFail::Report(owned("ERROR in create_bootable, with creating bitcoin.conf = ")),
        )
    } else if i == 56 {
        echo_into_exec(
            words1(config_text_exec(number, setup, awake)),
            join3("/media/", user, "/writable/upper/home/ubuntu/config.txt"),
            OnFail::Ignore,
        )
    } else if i == 57 {
        make_always(Kind::Print(config_notice_exec(number, setup)))
    } else if i == 58 {
        make_quiet("sleep", words1(owned("3")))
    } else if i == 59 {
        make_checked(
            "sudo",
            words3(owned("chmod"), owned("777"), join3("/media/", user, "/writable/upper/home/ubuntu/config.txt")),
            "ERROR in creating bootable with opening file permissions = ",
        )
    } else if i == 60 {
        make_quiet("sync", words0())
    } else {
        make_checked(
            "sudo",
            words2(owned("umount"), join3("/media/", user, "/writable")),
            "ERROR in create_bootable with unmounting writable = ",
        )
    }
}

/// Step `i` of making a hardware wallet, or `None` past its end.
pub fn bootable_step_exec(
    home: &str,
    user: &str,
    number: &str,
    setup: &str,
    awake: bool,
    baseline: &str,
    target: &str,
    cwd: &Option<String>,
    i: usize,
) -> (res: Option<ExecStep>)
    ensures
        opt_view(res) == bootable_step(
            home@,
            user@,
            number@,
            setup@,
            awake,
            baseline@,
            target@,
            cwd.deep_view(),
            i as int,
        ),
{
    if i < 24 {
        Some(bootable_head_exec(home, baseline, target, i))
    } else if i < 33 {
        Some(bootable_middle_exec(user, target, i))
    } else if i < 51 {
        Some(copy_step_exec(home, user, i - 33))
    } else if i < 62 {
        Some(bootable_tail_exec(home, user, number, setup, awake, cwd, i))
    } else {
        None
    }
}

} // verus!
