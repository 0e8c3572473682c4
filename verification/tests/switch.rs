use switsshfs::command::{mount, unmount};
use switsshfs::config::{Config, ConfigError};
use switsshfs::mtab::{MountState, MtabError};
use switsshfs::switch::{
    assert_cmd_exists, configured, detected, finished, switch_mode, Action, Event, Phase, Switch,
    SwitchMode, DEFAULT_TARGET, MISSING_COMMAND_STATUS, PANIC_STATUS,
};

fn at(target: &str, phase: Phase) -> Switch {
    Switch { target: String::from(target), phase }
}

fn probe(program: &str) -> Action {
    Action::Probe { program: String::from(program) }
}

fn panic_with(message: &str) -> Action {
    Action::Panic { message: String::from(message) }
}

fn table_event(canonical: &str, table: &str) -> Event {
    Event::MountTable {
        canonical: String::from(canonical),
        table: String::from(table),
        failure: None,
    }
}

fn partial_table_event(canonical: &str, table: &str, failure: &str) -> Event {
    Event::MountTable {
        canonical: String::from(canonical),
        table: String::from(table),
        failure: Some(String::from(failure)),
    }
}

fn unreadable_config(error: &str) -> Event {
    Event::ConfigUnreadable { error: String::from(error) }
}

fn not_started(error: &str) -> Event {
    Event::NotStarted { error: String::from(error) }
}

fn every_event() -> Vec<Event> {
    vec![
        Event::CommandFound,
        Event::CommandNotFound,
        Event::CommandFailed { error: String::from("e") },
        Event::TargetUnresolved { error: String::from("e") },
        Event::MountTableNotOpened { error: String::from("e") },
        table_event("/mnt", ""),
        partial_table_event("/mnt", "", "e"),
        Event::ConfigText { text: String::from("remote = \"u@h:/r\"") },
        unreadable_config("e"),
        Event::Exited { code: Some(0) },
        not_started("e"),
    ]
}

#[test]
fn constants_of_a_run() {
    assert_eq!(DEFAULT_TARGET, ".");
    assert_eq!(MISSING_COMMAND_STATUS, 1);
    assert_eq!(PANIC_STATUS, 101);
}

#[test]
fn the_mode_is_the_opposite_of_the_state() {
    assert_eq!(switch_mode(MountState::Mounted), SwitchMode::Unmount);
    assert_eq!(switch_mode(MountState::NotMounted), SwitchMode::Mount);
}

#[test]
fn a_run_begins_with_the_probe_of_sshfs() {
    let (run, action) = Switch::start(Some(String::from("/home/x/mnt")));
    assert_eq!(run, at("/home/x/mnt", Phase::ProbingMount));
    assert_eq!(action, probe("sshfs"));
}

#[test]
fn a_run_without_argument_takes_the_current_directory() {
    let (run, action) = Switch::start(None);
    assert_eq!(run, at(".", Phase::ProbingMount));
    assert_eq!(action, probe("sshfs"));
}

#[test]
fn the_second_probe_follows_the_first() {
    let next = at("/mnt", Phase::ProbingMount).step(Event::CommandFound);
    assert_eq!(next, Some((at("/mnt", Phase::ProbingUnmount), probe("fusermount"))));
}

#[test]
fn the_mount_table_is_read_after_both_probes() {
    let next = at("mnt", Phase::ProbingUnmount).step(Event::CommandFound);
    assert_eq!(
        next,
        Some((
            at("mnt", Phase::Detecting),
            Action::ReadMountTable { path: String::from("/etc/mtab"), target: String::from("mnt") }
        ))
    );
}

#[test]
fn a_missing_sshfs_ends_the_run_with_one() {
    let (run, first) = Switch::start(Some(String::from("/mnt")));
    assert_eq!(first, probe("sshfs"));
    let next = run.step(Event::CommandNotFound);
    assert_eq!(
        next,
        Some((
            at("/mnt", Phase::Done),
            Action::Exit { status: 1, error: Some(String::from("Command 'sshfs' not found.")) }
        ))
    );
}

#[test]
fn a_missing_fusermount_ends_the_run_with_one() {
    let (run, _) = Switch::start(Some(String::from("/mnt")));
    let (run, second) = run.step(Event::CommandFound).unwrap();
    assert_eq!(second, probe("fusermount"));
    let next = run.step(Event::CommandNotFound);
    assert_eq!(
        next,
        Some((
            at("/mnt", Phase::Done),
            Action::Exit {
                status: 1,
                error: Some(String::from("Command 'fusermount' not found.")),
            }
        ))
    );
}

#[test]
fn a_probe_that_fails_otherwise_ends_the_run_with_one() {
    let failed = Event::CommandFailed { error: String::from("Permission denied") };
    let next = at("/mnt", Phase::ProbingMount).step(failed);
    assert_eq!(
        next,
        Some((
            at("/mnt", Phase::Done),
            Action::Exit {
                status: 1,
                error: Some(String::from(
                    "Error while assert that the command 'sshfs' exists: Permission denied"
                )),
            }
        ))
    );
}

#[test]
fn nothing_follows_the_end_of_a_run() {
    for event in every_event() {
        assert_eq!(at("/mnt", Phase::Done).step(event), None);
    }
}

#[test]
fn assert_cmd_exists_passes_a_found_program() {
    assert_eq!(assert_cmd_exists("sshfs", Event::CommandFound), None);
    assert_eq!(assert_cmd_exists("sshfs", not_started("e")), None);
}

#[test]
fn assert_cmd_exists_reports_a_missing_program() {
    assert_eq!(
        assert_cmd_exists("sshfs", Event::CommandNotFound),
        Some(Action::Exit { status: 1, error: Some(String::from("Command 'sshfs' not found.")) })
    );
    assert_eq!(
        assert_cmd_exists("x", Event::CommandFailed { error: String::from("busy") }),
        Some(Action::Exit {
            status: 1,
            error: Some(String::from("Error while assert that the command 'x' exists: busy")),
        })
    );
}

#[test]
fn a_mounted_target_is_unmounted() {
    let table = "user@host:/remote /home/x/mnt fuse.sshfs rw,nosuid 0 0\n";
    let next = at("mnt", Phase::Detecting).step(table_event("/home/x/mnt", table));
    assert_eq!(
        next,
        Some((at("mnt", Phase::Unmounting), Action::Run { command: unmount("mnt") }))
    );
}

#[test]
fn an_unmounted_target_has_its_configuration_read() {
    let table = "proc /proc proc rw 0 0\n";
    let next = at("/home/x/mnt", Phase::Detecting).step(table_event("/home/x/mnt", table));
    assert_eq!(
        next,
        Some((
            at("/home/x/mnt", Phase::Configuring),
            Action::ReadConfig {
                directory: String::from("/home/x/mnt"),
                file_name: String::from("switsshfs.toml"),
            }
        ))
    );
}

#[test]
fn the_table_is_searched_for_the_canonical_path() {
    let table = "u@h:/r /home/x/mnt fuse.sshfs rw 0 0\n";
    let (run, action) = at(".", Phase::Detecting).step(table_event("/home/x/mnt", table)).unwrap();
    assert_eq!(run, at(".", Phase::Unmounting));
    assert_eq!(action, Action::Run { command: unmount(".") });
    let (run, _) = at("/home/x/mnt", Phase::Detecting).step(table_event("/other", table)).unwrap();
    assert_eq!(run, at("/home/x/mnt", Phase::Configuring));
}

#[test]
fn a_malformed_table_ends_the_run() {
    let next = at("/mnt", Phase::Detecting).step(table_event("/mnt", "proc /proc\n"));
    assert_eq!(next, Some((at("/mnt", Phase::Done), panic_with("Malformed mtab line"))));
}

#[test]
fn a_table_that_cannot_be_had_ends_the_run() {
    assert_eq!(
        at("/mnt", Phase::Detecting)
            .step(Event::MountTableNotOpened { error: String::from("denied") }),
        Some((at("/mnt", Phase::Done), panic_with("Could not open mtab file: denied")))
    );
    assert_eq!(
        at("/mnt", Phase::Detecting).step(Event::TargetUnresolved { error: String::from("gone") }),
        Some((at("/mnt", Phase::Done), panic_with("Invalid mountpoint: gone")))
    );
    assert_eq!(
        at("/mnt", Phase::Detecting).step(partial_table_event("/mnt", "", "bad data")),
        Some((at("/mnt", Phase::Done), panic_with("Could not read mtab line: bad data")))
    );
}

#[test]
fn a_table_that_breaks_off_before_any_match_ends_the_run() {
    let table = "proc /proc proc rw 0 0\n/dev/sda1 / ext4 rw 0 0\n";
    assert_eq!(
        at("/mnt", Phase::Detecting).step(partial_table_event("/mnt", table, "bad data")),
        Some((at("/mnt", Phase::Done), panic_with("Could not read mtab line: bad data")))
    );
}

#[test]
fn a_table_that_breaks_off_after_the_match_is_still_mounted() {
    let table = "proc /proc proc rw 0 0\nu@h:/r /mnt fuse.sshfs rw 0 0\n";
    assert_eq!(
        at("/mnt", Phase::Detecting).step(partial_table_event("/mnt", table, "bad data")),
        Some((at("/mnt", Phase::Unmounting), Action::Run { command: unmount("/mnt") }))
    );
}

#[test]
fn a_table_that_breaks_off_after_a_short_line_is_malformed() {
    let table = "proc /proc\n";
    assert_eq!(
        at("/mnt", Phase::Detecting).step(partial_table_event("/mnt", table, "bad data")),
        Some((at("/mnt", Phase::Done), panic_with("Malformed mtab line")))
    );
}

#[test]
fn detected_decides_by_the_state() {
    assert_eq!(
        detected("/mnt", Ok(MountState::Mounted), None),
        (Phase::Unmounting, Action::Run { command: unmount("/mnt") })
    );
    assert_eq!(
        detected("/mnt", Ok(MountState::Mounted), Some(String::from("late"))),
        (Phase::Unmounting, Action::Run { command: unmount("/mnt") })
    );
    assert_eq!(
        detected("/mnt", Ok(MountState::NotMounted), Some(String::from("early"))),
        (Phase::Done, panic_with("Could not read mtab line: early"))
    );
    assert_eq!(
        detected("/mnt", Err(MtabError::MalformedLine { number: 1 }), Some(String::from("late"))),
        (Phase::Done, panic_with("Malformed mtab line"))
    );
    assert_eq!(
        detected("/mnt", Ok(MountState::NotMounted), None),
        (
            Phase::Configuring,
            Action::ReadConfig {
                directory: String::from("/mnt"),
                file_name: String::from("switsshfs.toml"),
            }
        )
    );
    assert_eq!(
        detected("/mnt", Err(MtabError::MalformedLine { number: 3 }), None),
        (Phase::Done, panic_with("Malformed mtab line"))
    );
}

#[test]
fn the_configured_remote_is_mounted() {
    let text = Event::ConfigText { text: String::from("remote = \"user@host:/remote\"\n") };
    let next = at("/home/x/mnt", Phase::Configuring).step(text);
    assert_eq!(
        next,
        Some((
            at("/home/x/mnt", Phase::Mounting),
            Action::Run { command: mount("user@host:/remote", "/home/x/mnt") }
        ))
    );
}

#[test]
fn an_invalid_configuration_ends_the_run() {
    for text in ["name = \"x\"", "remote = 1", ""] {
        let next =
            at("/home/x/mnt", Phase::Configuring).step(Event::ConfigText { text: String::from(text) });
        assert_eq!(
            next,
            Some((
                at("/home/x/mnt", Phase::Done),
                panic_with(
                    "Invalid switsshfs.toml configuration in '/home/x/mnt': missing field `remote`"
                )
            ))
        );
    }
}

#[test]
fn a_malformed_configuration_ends_the_run_naming_file_and_directory() {
    let text = "remote = ";
    let parser = toml::from_str::<toml::Table>(text).unwrap_err().to_string();
    let (run, action) = at("/home/x/mnt", Phase::Configuring)
        .step(Event::ConfigText { text: String::from(text) })
        .unwrap();
    assert_eq!(run, at("/home/x/mnt", Phase::Done));
    match action {
        Action::Panic { message } => {
            assert_eq!(
                message,
                format!("Invalid switsshfs.toml configuration in '/home/x/mnt': {}", parser)
            );
            assert!(message.contains("switsshfs.toml"));
            assert!(message.contains("/home/x/mnt"));
        }
        _ => unreachable!(),
    }
    assert_ne!(PANIC_STATUS, 0);
}

#[test]
fn an_absent_configuration_ends_the_run_naming_file_and_directory() {
    let (run, action) =
        at("/home/x/mnt", Phase::Configuring).step(unreadable_config("NotFound")).unwrap();
    assert_eq!(run, at("/home/x/mnt", Phase::Done));
    assert_eq!(
        action,
        panic_with("Could not read switsshfs.toml config from '/home/x/mnt': NotFound")
    );
    match action {
        Action::Panic { message } => {
            assert!(message.contains("switsshfs.toml"));
            assert!(message.contains("/home/x/mnt"));
        }
        _ => unreachable!(),
    }
    assert_ne!(PANIC_STATUS, 0);
}

#[test]
fn configured_decides_by_the_outcome() {
    assert_eq!(
        configured("/mnt", Ok(Config { remote: String::from("u@h:/r") })),
        (Phase::Mounting, Action::Run { command: mount("u@h:/r", "/mnt") })
    );
    assert_eq!(
        configured("/mnt", Err(ConfigError::Malformed { message: String::from("no value") })),
        (Phase::Done, panic_with("Invalid switsshfs.toml configuration in '/mnt': no value"))
    );
    assert_eq!(
        configured("/mnt", Err(ConfigError::MissingRemote)),
        (
            Phase::Done,
            panic_with("Invalid switsshfs.toml configuration in '/mnt': missing field `remote`")
        )
    );
}

#[test]
fn the_status_of_the_mount_command_passes_through() {
    let next = at("/mnt", Phase::Mounting).step(Event::Exited { code: Some(5) });
    assert_eq!(next, Some((at("/mnt", Phase::Done), Action::Exit { status: 5, error: None })));
}

#[test]
fn the_status_of_the_unmount_command_passes_through() {
    let next = at("/mnt", Phase::Unmounting).step(Event::Exited { code: Some(5) });
    assert_eq!(next, Some((at("/mnt", Phase::Done), Action::Exit { status: 5, error: None })));
}

#[test]
fn a_command_that_succeeds_ends_the_run_with_zero() {
    let next = at("/mnt", Phase::Mounting).step(Event::Exited { code: Some(0) });
    assert_eq!(next, Some((at("/mnt", Phase::Done), Action::Exit { status: 0, error: None })));
}

#[test]
fn finished_keeps_any_status() {
    for status in [0, 1, 5, 127, 255, -1, i32::MAX, i32::MIN] {
        assert_eq!(finished(Some(status)), Action::Exit { status, error: None });
    }
    assert_eq!(finished(None), panic_with("The command ended without an exit status"));
}

#[test]
fn a_command_that_cannot_be_started_ends_the_run() {
    assert_eq!(
        at("/mnt", Phase::Mounting).step(not_started("NotFound")),
        Some((
            at("/mnt", Phase::Done),
            panic_with("Could not run sshfs: please check your sshfs installation.: NotFound")
        ))
    );
    assert_eq!(
        at("/mnt", Phase::Unmounting).step(not_started("NotFound")),
        Some((
            at("/mnt", Phase::Done),
            panic_with("Could not run fusermount: please check your fuse installation.: NotFound")
        ))
    );
}

#[test]
fn an_event_that_answers_nothing_is_refused() {
    assert_eq!(at("/mnt", Phase::ProbingMount).step(Event::Exited { code: Some(0) }), None);
    assert_eq!(at("/mnt", Phase::ProbingUnmount).step(unreadable_config("e")), None);
    assert_eq!(at("/mnt", Phase::Detecting).step(Event::CommandFound), None);
    assert_eq!(at("/mnt", Phase::Detecting).step(Event::CommandNotFound), None);
    assert_eq!(at("/mnt", Phase::Configuring).step(table_event("/mnt", "")), None);
    assert_eq!(at("/mnt", Phase::Mounting).step(unreadable_config("e")), None);
    assert_eq!(at("/mnt", Phase::Unmounting).step(Event::CommandNotFound), None);
}

#[test]
fn a_whole_run_that_mounts() {
    let (run, a0) = Switch::start(Some(String::from("/home/x/mnt")));
    let (run, a1) = run.step(Event::CommandFound).unwrap();
    let (run, a2) = run.step(Event::CommandFound).unwrap();
    let (run, a3) = run.step(table_event("/home/x/mnt", "proc /proc proc rw 0 0\n")).unwrap();
    let (run, a4) =
        run.step(Event::ConfigText { text: String::from("remote = \"u@h:/r\"") }).unwrap();
    let (run, a5) = run.step(Event::Exited { code: Some(0) }).unwrap();
    assert_eq!(a0, probe("sshfs"));
    assert_eq!(a1, probe("fusermount"));
    assert_eq!(
        a2,
        Action::ReadMountTable {
            path: String::from("/etc/mtab"),
            target: String::from("/home/x/mnt"),
        }
    );
    assert_eq!(
        a3,
        Action::ReadConfig {
            directory: String::from("/home/x/mnt"),
            file_name: String::from("switsshfs.toml"),
        }
    );
    assert_eq!(a4, Action::Run { command: mount("u@h:/r", "/home/x/mnt") });
    assert_eq!(a5, Action::Exit { status: 0, error: None });
    assert_eq!(run, at("/home/x/mnt", Phase::Done));
}

#[test]
fn a_whole_run_that_unmounts() {
    let (run, _) = Switch::start(None);
    let (run, _) = run.step(Event::CommandFound).unwrap();
    let (run, _) = run.step(Event::CommandFound).unwrap();
    let (run, a3) =
        run.step(table_event("/home/x/mnt", "u@h:/r /home/x/mnt fuse.sshfs rw 0 0\n")).unwrap();
    let (run, a4) = run.step(Event::Exited { code: Some(1) }).unwrap();
    assert_eq!(a3, Action::Run { command: unmount(".") });
    assert_eq!(a4, Action::Exit { status: 1, error: None });
    assert_eq!(run, at(".", Phase::Done));
}

#[test]
fn no_table_is_read_when_a_program_is_missing() {
    let (run, first) = Switch::start(Some(String::from("/mnt")));
    let (run, last) = run.step(Event::CommandNotFound).unwrap();
    assert!(matches!(first, Action::Probe { .. }));
    assert!(matches!(last, Action::Exit { status: 1, .. }));
    assert_eq!(run, at("/mnt", Phase::Done));
    for event in every_event() {
        assert_eq!(at("/mnt", Phase::Done).step(event), None);
    }
}
