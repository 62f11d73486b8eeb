use std::cell::Cell;

use geph_autotest::{
    connect_command, default_listen, measure_time, random_wait_secs, sync_command, Cleanup,
    GroupRun, Measurement, ProbeRecord, CLIENT_PROGRAM,
};

#[test]
fn measure_time_wraps_errors() {
    let ok = measure_time(|| Ok(vec![1u8, 2, 3]));
    assert!(ok.is_ok());
    let err = measure_time(|| Err(anyhow::Error::msg("curl exited"))).unwrap_err();
    assert_eq!(err.to_string(), "could not download test file");
    assert_eq!(format!("{:#}", err), "could not download test file: curl exited");
}

#[test]
fn random_wait_stays_within_twice_interval() {
    assert_eq!(random_wait_secs(0), 0);
    for _ in 0..100 {
        assert!(random_wait_secs(5) <= 10);
    }
}

#[test]
fn group_makes_iterations_plus_one_downloads() {
    let mut run = GroupRun::new(2);
    let mut n = 0u64;
    while run.wants_download() {
        run.record_success(Measurement { download_time: 100 + n as u128, timestamp: 1000 + n });
        n += 1;
    }
    assert_eq!(n, 3);
    assert!(!run.failed());
    assert_eq!(run.measurements()[2], Measurement { download_time: 102, timestamp: 1002 });
}

#[test]
fn download_error_ends_group_keeping_results() {
    let mut run = GroupRun::new(5);
    run.record_success(Measurement { download_time: 7, timestamp: 1 });
    run.record_failure();
    assert!(!run.wants_download());
    assert!(run.failed());
    let mut record = ProbeRecord::new("exit.example".to_string(), true, 1234);
    record.add_group("small".to_string(), run);
    assert_eq!(record.groups.len(), 1);
    assert_eq!(record.groups[0].name, "small");
    assert!(record.groups[0].failed);
    assert_eq!(record.groups[0].measurements, vec![Measurement { download_time: 7, timestamp: 1 }]);
    assert_eq!(record.time_to_connect, 1234);
}

struct FakeChild<'a> {
    kills: &'a Cell<u32>,
    reaps: &'a Cell<u32>,
    cleanup: Cleanup,
}

impl FakeChild<'_> {
    fn shut_down(&mut self) {
        if self.cleanup.release() {
            self.kills.set(self.kills.get() + 1);
            self.reaps.set(self.reaps.get() + 1);
        }
    }
}

impl Drop for FakeChild<'_> {
    fn drop(&mut self) {
        self.shut_down();
    }
}

fn cycle(fail_at: u32, kills: &Cell<u32>, reaps: &Cell<u32>) -> Result<(), u32> {
    let mut child = FakeChild { kills, reaps, cleanup: Cleanup::new() };
    for point in 0..4 {
        if point == fail_at {
            return Err(point);
        }
    }
    child.shut_down();
    Ok(())
}

#[test]
fn child_killed_once_on_every_exit_path() {
    for fail_at in 0..5 {
        let kills = Cell::new(0);
        let reaps = Cell::new(0);
        let r = cycle(fail_at, &kills, &reaps);
        assert_eq!(r.is_err(), fail_at < 4);
        assert_eq!(kills.get(), 1);
        assert_eq!(reaps.get(), 1);
    }
}

#[test]
fn cleanup_answers_true_once() {
    let mut c = Cleanup::new();
    assert!(!c.is_released());
    assert!(c.release());
    assert!(!c.release());
    assert!(!c.release());
    assert!(c.is_released());
}

#[test]
fn sync_command_arguments() {
    let cmd = sync_command("alice", "pw");
    assert_eq!(cmd.program, CLIENT_PROGRAM);
    assert_eq!(cmd.args, vec!["sync", "--username", "alice", "--password", "pw"]);
    assert_eq!(cmd.env, vec![("GEPH_RECURSIVE".to_string(), "1".to_string())]);
}

#[test]
fn connect_command_arguments() {
    let cmd = connect_command("alice", "pw", "sg.exits.example", &default_listen(), None);
    assert_eq!(cmd.program, "geph4-client");
    assert_eq!(
        cmd.args,
        vec![
            "connect",
            "--username",
            "alice",
            "--password",
            "pw",
            "--exit-server",
            "sg.exits.example",
            "--http-listen",
            "127.0.0.1:10910",
            "--socks5-listen",
            "127.0.0.1:10909",
            "--stats-listen",
            "127.0.0.1:10809",
        ]
    );
}

#[test]
fn connect_command_with_credential_cache() {
    let cmd = connect_command("u", "p", "e", &default_listen(), Some("/tmp/creds.db"));
    assert_eq!(cmd.args.len(), 15);
    assert_eq!(cmd.args[12], "127.0.0.1:10809");
    assert_eq!(cmd.args[13], "--credential-cache");
    assert_eq!(cmd.args[14], "/tmp/creds.db");
}
