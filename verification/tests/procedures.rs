use lib::bootable::{awake_word_exec, config_text_exec, dependency_exec};
use lib::plan::{plan_len_exec, Job};
use lib::pre_install::pre_install_step_exec;
use lib::runner::{Action, Event, Runner};
use lib::step::{Cmd, Kind};

type Act = Action<Cmd, String>;

fn s(x: &str) -> String {
    x.to_string()
}

fn run_cmd(a: &Act) -> Option<&Cmd> {
    match a {
        Action::Run(c) => Some(c),
        Action::Spawn(c, _) => Some(c),
        _ => None,
    }
}

fn argv(c: &Cmd) -> Vec<&str> {
    let mut v = vec![c.program.as_str()];
    for a in &c.args {
        v.push(a.as_str());
    }
    v
}

/// Runs `job`, answering each action with `answer`; returns the actions asked
/// for, and the one that ended the procedure.
fn drive<F: FnMut(&Act) -> Event<String>>(job: Job<String>, mut answer: F) -> (Vec<Act>, Act) {
    let (mut r, mut a) = Runner::start(job);
    let mut seen = Vec::new();
    for _ in 0..200 {
        if matches!(a, Action::Finish(_) | Action::Halt(_)) {
            return (seen, a);
        }
        let e = answer(&a);
        seen.push(a);
        a = r.advance(e);
    }
    panic!("the procedure did not end");
}

/// Every command succeeds, no path exists, the working directory is `/work`
/// and the device found is `/dev/sdb`.
fn calm(a: &Act) -> Event<String> {
    match a {
        Action::Run(_) | Action::Wait => Event::Ran { success: true, stderr: Some(s("")) },
        Action::Probe(_) => Event::Found(false),
        Action::CurrentDir => Event::Cwd(Ok(Some(s("/work")))),
        Action::Detect(_) => Event::Device(Ok(s("/dev/sdb"))),
        _ => Event::Done,
    }
}

fn pre(root: &str) -> Job<String> {
    Job::PreInstall { home: s("/home/al"), root: s(root), target: s("/dev/sdb") }
}

fn iso() -> Job<String> {
    Job::InitIso { home: s("/home/al"), user: s("al") }
}

fn boot(awake: bool) -> Job<String> {
    Job::Bootable {
        home: s("/home/al"),
        user: s("al"),
        number: s("2"),
        setup: s("5"),
        awake,
        baseline: s("sda\n"),
    }
}

#[test]
fn pre_install_stops_without_network() {
    let (seen, end) = drive(pre(""), |a| match a {
        Action::Run(c) if c.program == "ping" => Event::Ran { success: false, stderr: Some(s("unreachable")) },
        other => calm(other),
    });
    assert_eq!(seen.len(), 1);
    assert_eq!(argv(run_cmd(&seen[0]).unwrap()), vec!["ping", "-c", "1", "linux.org"]);
    assert_eq!(end, Action::Finish(Err(s("Error in Pre_install ping failed networking is not enabled"))));
}

#[test]
fn pre_install_with_password_pipes_it_to_dd() {
    let (seen, end) = drive(pre("hunter2"), calm);
    assert_eq!(end, Action::Finish(Ok(s("pre-install complete!"))));
    assert_eq!(seen.len(), 7);
    assert_eq!(seen[1], Action::Probe(s("/home/al/fox-tmp")));
    assert_eq!(argv(run_cmd(&seen[2]).unwrap()), vec!["mkdir", "/home/al/fox-tmp"]);
    match &seen[3] {
        Action::Spawn(c, input) => {
            assert_eq!(
                argv(c),
                vec![
                    "sudo",
                    "dd",
                    "if=/home/al/fox-tmp/fox-ubuntu-22.04-amd64.iso",
                    "of=/dev/sdb",
                    "bs=16M",
                    "oflag=sync",
                    "status=progress"
                ]
            );
            assert_eq!(input, "hunter2");
        },
        other => panic!("expected the piped dd, got {:?}", other),
    }
    assert_eq!(argv(run_cmd(&seen[4]).unwrap()), vec!["sleep", "2"]);
    assert_eq!(seen[5], Action::Wait);
    assert_eq!(argv(run_cmd(&seen[6]).unwrap()), vec!["sync"]);
}

#[test]
fn pre_install_password_never_on_a_command_line() {
    let (seen, _) = drive(pre("s3cr3t-pass"), calm);
    for a in &seen {
        if let Some(c) = run_cmd(a) {
            assert!(c.args.iter().all(|x| !x.contains("s3cr3t-pass")));
        }
    }
}

#[test]
fn pre_install_without_password_reports_dd_error() {
    let (seen, end) = drive(pre(""), |a| match a {
        Action::Run(c) if c.args.first().map(|x| x.as_str()) == Some("dd") => {
            Event::Ran { success: false, stderr: Some(s("No space left")) }
        },
        other => calm(other),
    });
    assert!(seen.iter().all(|a| !matches!(a, Action::Spawn(..) | Action::Wait)));
    assert_eq!(
        end,
        Action::Finish(Err(s("ERROR in pre_install with Burning ISO with DD & blank sysPass = No space left")))
    );
}

#[test]
fn pre_install_keeps_existing_tmp_dir() {
    let (seen, end) = drive(pre(""), |a| match a {
        Action::Probe(_) => Event::Found(true),
        other => calm(other),
    });
    assert_eq!(end, Action::Finish(Ok(s("pre-install complete!"))));
    assert!(seen.iter().all(|a| run_cmd(a).map(|c| c.program != "mkdir").unwrap_or(true)));
    assert_eq!(seen.len(), 4);
}

#[test]
fn pre_install_mkdir_failure() {
    let (_, end) = drive(pre("pw"), |a| match a {
        Action::Run(c) if c.program == "mkdir" => Event::Ran { success: false, stderr: Some(s("denied")) },
        other => calm(other),
    });
    assert_eq!(end, Action::Finish(Err(s("ERROR in pre_install with creating fox-tmp directory = denied"))));
}

#[test]
fn pre_install_piped_dd_failure() {
    let (_, end) = drive(pre("pw"), |a| match a {
        Action::Wait => Event::Ran { success: false, stderr: Some(s("")) },
        other => calm(other),
    });
    assert_eq!(end, Action::Finish(Err(s("ERROR in pre_install with Burning ISO with DD & piping root = "))));
}

#[test]
fn pre_install_plan_lengths() {
    assert!(pre_install_step_exec("/h", "pw", "/dev/x", 6).is_some());
    assert!(pre_install_step_exec("/h", "pw", "/dev/x", 7).is_none());
    assert!(pre_install_step_exec("/h", "", "/dev/x", 4).is_some());
    assert!(pre_install_step_exec("/h", "", "/dev/x", 5).is_none());
    assert_eq!(plan_len_exec(&pre("pw")), 7);
    assert_eq!(plan_len_exec(&pre("")), 5);
}

/// The patched images exist once the scripts ran; nothing else does.
fn images_appear(a: &Act) -> Event<String> {
    match a {
        Action::Probe(p) if p.ends_with("persistent-ubuntu1.iso") || p.ends_with("persistent-ubuntu.iso") => {
            Event::Found(true)
        },
        other => calm(other),
    }
}

#[test]
fn init_iso_builds_the_image() {
    let (seen, end) = drive(iso(), images_appear);
    assert_eq!(end, Action::Finish(Ok(s("SUCCESS in init_iso"))));
    assert_eq!(argv(run_cmd(&seen[0]).unwrap()), vec!["sudo", "apt", "-y", "update"]);
    assert_eq!(seen[4], Action::CurrentDir);
    assert!(seen.contains(&Action::ChangeDir(s("/home/al/fox"))));
    assert_eq!(seen.last(), Some(&Action::ChangeDir(s("/home/al"))));
    let download = seen.iter().filter_map(run_cmd).find(|c| c.args.get(1).map(|x| x.as_str()) == Some("download")).unwrap();
    assert_eq!(download.args.len(), 20);
    let sed1 = seen
        .iter()
        .filter_map(run_cmd)
        .find(|c| c.stdout_to.as_deref() == Some("/home/al/fox/scripts/sed1.sh"))
        .unwrap();
    assert_eq!(
        argv(sed1),
        vec!["echo", "-e", "< ubuntu-22.04.3-desktop-amd64.iso sed 's/maybe-ubiquity/  persistent  /' > persistent-ubuntu1.iso"]
    );
    // The stale mount was absent: no umount.
    assert!(seen.iter().filter_map(run_cmd).all(|c| c.args.first().map(|x| x.as_str()) != Some("umount")));
}

#[test]
fn init_iso_skips_downloads_of_present_files() {
    let (seen, end) = drive(iso(), |a| match a {
        Action::Probe(_) => Event::Found(true),
        other => calm(other),
    });
    assert_eq!(end, Action::Finish(Ok(s("SUCCESS in init_iso"))));
    let programs: Vec<&str> = seen.iter().filter_map(run_cmd).map(|c| c.program.as_str()).collect();
    assert!(!programs.contains(&"curl"));
    assert!(!programs.contains(&"wget"));
    assert!(!programs.contains(&"mkdir"));
    let umount = seen.iter().filter_map(run_cmd).find(|c| c.args.first().map(|x| x.as_str()) == Some("umount")).unwrap();
    assert_eq!(argv(umount), vec!["sudo", "umount", "/media/al/Ubuntu 22.04.3 LTS amd64"]);
}

#[test]
fn init_iso_checks_the_first_patch() {
    let (_, end) = drive(iso(), calm);
    assert_eq!(end, Action::Finish(Err(s("ERROR in running sed1, script completed but did not create iso"))));
}

#[test]
fn init_iso_checks_the_second_patch() {
    let (_, end) = drive(iso(), |a| match a {
        Action::Probe(p) if p.ends_with("persistent-ubuntu1.iso") => Event::Found(true),
        other => calm(other),
    });
    assert_eq!(end, Action::Finish(Err(s("ERROR in running sed2, script completed but did not create iso"))));
}

#[test]
fn init_iso_reports_working_directory_error() {
    let (seen, end) = drive(iso(), |a| match a {
        Action::CurrentDir => Event::Cwd(Err(s("gone"))),
        other => calm(other),
    });
    assert_eq!(seen.len(), 5);
    assert_eq!(end, Action::Finish(Err(s("Error obtaining initial cwd buf gone"))));
}

#[test]
fn init_iso_goes_on_after_failed_updates() {
    let (_, end) = drive(iso(), |a| match a {
        Action::Run(c) if c.args.first().map(|x| x.as_str()) == Some("apt") => {
            Event::Ran { success: false, stderr: Some(s("lock")) }
        },
        other => images_appear(other),
    });
    assert_eq!(end, Action::Finish(Ok(s("SUCCESS in init_iso"))));
}

#[test]
fn init_iso_download_failure() {
    let (_, end) = drive(iso(), |a| match a {
        Action::Run(c) if c.program == "curl" => Event::Ran { success: false, stderr: Some(s("404")) },
        other => images_appear(other),
    });
    assert_eq!(end, Action::Finish(Err(s("ERROR in init iso with downloading ubuntu iso = 404"))));
}

#[test]
fn bootable_makes_the_wallet() {
    let (seen, end) = drive(boot(true), calm);
    assert_eq!(end, Action::Finish(Ok(s("SUCCESS in creating bootable device"))));
    let config = seen
        .iter()
        .filter_map(run_cmd)
        .find(|c| c.stdout_to.as_deref() == Some("/media/al/writable/upper/home/ubuntu/config.txt"))
        .unwrap();
    assert_eq!(argv(config), vec!["echo", "type=hardwareWallet\nhwNumber=2\nsetupStep=5\nawake=true"]);
    assert!(seen.contains(&Action::Print(s("creating bootable ubuntu device writing config...HW 2 Setupstep 5"))));
    let copies: Vec<&Cmd> = seen
        .iter()
        .filter_map(run_cmd)
        .filter(|c| c.program == "cp" && c.args[1] == "/media/al/writable/upper/home/ubuntu/dependencies")
        .collect();
    assert_eq!(copies.len(), 18);
    assert_eq!(copies[0].args[0], "/home/al/fox/genisoimage_9%3a1.1.11-3.2ubuntu1_amd64.deb");
    let program = seen.iter().filter_map(run_cmd).find(|c| c.args.first().map(|x| x.as_str()) == Some("/work/Fox")).unwrap();
    assert_eq!(argv(program), vec!["cp", "/work/Fox", "/media/al/writable/upper/home/ubuntu"]);
    let partition = seen
        .iter()
        .filter_map(run_cmd)
        .find(|c| c.stdout_to.as_deref() == Some("/home/al/fox/scripts/create_partition.sh"))
        .unwrap();
    assert_eq!(
        argv(partition),
        vec!["echo", "-e", "(\necho n\necho 4\necho \necho \necho w\n) | sudo fdisk --wipe=always /dev/sdb"]
    );
    let detections = seen.iter().filter(|a| matches!(a, Action::Detect(_))).count();
    assert_eq!(detections, 4);
    assert_eq!(seen.len(), 60);
}

#[test]
fn bootable_uses_the_device_found_last() {
    let mut found = 0;
    let (seen, _) = drive(boot(false), |a| match a {
        Action::Detect(b) => {
            assert_eq!(b, "sda\n");
            found += 1;
            Event::Device(Ok(format!("/dev/sd{}", ["b", "c", "d", "e"][found - 1])))
        },
        other => calm(other),
    });
    let dd = seen.iter().filter_map(run_cmd).find(|c| c.args.first().map(|x| x.as_str()) == Some("dd")).unwrap();
    assert_eq!(dd.args[2], "of=/dev/sdc");
    let mkfs = seen.iter().filter_map(run_cmd).find(|c| c.args.first().map(|x| x.as_str()) == Some("mkfs.ext4")).unwrap();
    assert_eq!(argv(mkfs), vec!["sudo", "mkfs.ext4", "/dev/sde4"]);
    let mount = seen.iter().filter_map(run_cmd).find(|c| c.args.first().map(|x| x.as_str()) == Some("mount")).unwrap();
    assert_eq!(argv(mount), vec!["sudo", "mount", "/dev/sde4", "/media/al/writable"]);
}

#[test]
fn bootable_reports_detection_error() {
    let (seen, end) = drive(boot(true), |a| match a {
        Action::Detect(_) => Event::Device(Err(s("no new device"))),
        other => calm(other),
    });
    assert_eq!(seen.len(), 2);
    assert_eq!(end, Action::Finish(Err(s("no new device"))));
}

#[test]
fn bootable_halts_without_textual_working_directory() {
    let (seen, end) = drive(boot(true), |a| match a {
        Action::CurrentDir => Event::Cwd(Ok(None)),
        other => calm(other),
    });
    assert!(matches!(end, Action::Halt(_)));
    // Everything up to the copies of the package archives was done.
    let copies = seen.iter().filter_map(run_cmd).filter(|c| c.program == "cp").count();
    assert_eq!(copies, 18);
}

#[test]
fn bootable_copy_failure_names_the_package() {
    let (_, end) = drive(boot(true), |a| match a {
        Action::Run(c) if c.program == "cp" && c.args[0].contains("xclip") => {
            Event::Ran { success: false, stderr: Some(s("missing")) }
        },
        other => calm(other),
    });
    assert_eq!(end, Action::Finish(Err(s("ERROR in create_bootable with copying X clip = missing"))));
}

#[test]
fn bootable_label_failure_has_fixed_text() {
    let (_, end) = drive(boot(true), |a| match a {
        Action::Run(c) if c.args.first().map(|x| x.as_str()) == Some("e2label") => {
            Event::Ran { success: false, stderr: Some(s("ignored text")) }
        },
        other => calm(other),
    });
    assert_eq!(end, Action::Finish(Err(s("ERROR in create_bootable with labeling writable partition"))));
}

#[test]
fn bootable_partition_script_failure_is_ignored() {
    let (_, end) = drive(boot(true), |a| match a {
        Action::Run(c) if c.program == "bash" => Event::Ran { success: false, stderr: Some(s("fdisk")) },
        other => calm(other),
    });
    assert_eq!(end, Action::Finish(Ok(s("SUCCESS in creating bootable device"))));
}

#[test]
fn bootable_removes_stale_partition_script() {
    let (seen, _) = drive(boot(true), |a| match a {
        Action::Probe(_) => Event::Found(true),
        other => calm(other),
    });
    let rm = seen.iter().filter_map(run_cmd).find(|c| c.program == "sudo" && c.args[0] == "rm" && c.args.len() == 2).unwrap();
    assert_eq!(rm.args[1], "/home/al/fox/scripts/create_partition.sh");
}

#[test]
fn bootable_unmount_failure_at_the_end() {
    let (seen, end) = drive(boot(true), |a| match a {
        Action::Run(c) if c.args.len() == 2 && c.args[0] == "umount" && c.args[1] == "/media/al/writable" => {
            Event::Ran { success: false, stderr: Some(s("busy")) }
        },
        other => calm(other),
    });
    // The first unmount of the mount point is ignored; the last one is reported.
    assert_eq!(end, Action::Finish(Err(s("ERROR in create_bootable with unmounting writable = busy"))));
    assert_eq!(seen.len(), 60);
}

#[test]
fn undecodable_error_output_stops_the_procedure() {
    let (_, end) = drive(pre(""), |a| match a {
        Action::Run(c) if c.program == "ping" => Event::Ran { success: false, stderr: None },
        other => calm(other),
    });
    // The ping failure has a fixed text: the output is not needed.
    assert_eq!(end, Action::Finish(Err(s("Error in Pre_install ping failed networking is not enabled"))));
    let (_, end) = drive(pre(""), |a| match a {
        Action::Run(c) if c.program == "mkdir" => Event::Ran { success: false, stderr: None },
        other => calm(other),
    });
    assert_eq!(end, Action::Halt(s("the command's error output is not valid UTF-8")));
}

#[test]
fn config_text_values() {
    assert_eq!(config_text_exec("1", "0", false), "type=hardwareWallet\nhwNumber=1\nsetupStep=0\nawake=false");
    assert_eq!(config_text_exec("3", "12", true), "type=hardwareWallet\nhwNumber=3\nsetupStep=12\nawake=true");
    assert_eq!(awake_word_exec(true), "true");
    assert_eq!(awake_word_exec(false), "false");
}

#[test]
fn dependency_table_ends_with_zbar_tools() {
    assert_eq!(dependency_exec(5), ("xclip_0.13-2_amd64.deb", "X clip"));
    assert_eq!(dependency_exec(17), ("zbar-tools_0.23.92-4build2_amd64.deb", "zbar-tools"));
}

#[test]
fn runs_end_within_their_plans() {
    for job in [pre(""), pre("pw"), iso(), boot(true)] {
        let len = plan_len_exec(&job);
        let (seen, _) = drive(job, images_appear);
        assert!(seen.len() <= len);
    }
}

#[test]
fn first_step_kinds() {
    let step = pre_install_step_exec("/h", "", "/dev/x", 1).unwrap();
    assert_eq!(step.kind, Kind::Probe(s("/h/fox-tmp")));
}
