use geph_autotest::{
    contains_marker, marker_bytes, Action, Event, LineBuffer, Phase, Relay, RelayAction,
    Supervisor,
};

/// Drives a supervisor over one attempt's stream, given as chunks; returns the
/// lines put on the channel and the action that ended the attempt.
fn run_attempt(sup: &mut Supervisor, chunks: &[&[u8]], channel: &mut Vec<Vec<u8>>) -> Action {
    let mut buf = LineBuffer::new();
    for chunk in chunks {
        buf.push_bytes(chunk);
        loop {
            let line = buf.take_line(false);
            if line.is_empty() {
                break;
            }
            let action = sup.handle_line(&line);
            channel.push(line);
            if action == Action::ForwardThenHandOff {
                return action;
            }
            assert_eq!(action, Action::ForwardThenRead);
        }
    }
    loop {
        let line = buf.take_line(true);
        if line.is_empty() {
            return sup.handle_event(Event::StreamClosed);
        }
        let action = sup.handle_line(&line);
        channel.push(line);
        if action == Action::ForwardThenHandOff {
            return action;
        }
    }
}

fn started() -> Supervisor {
    let mut sup = Supervisor::new(None);
    assert_eq!(sup.handle_event(Event::Start), Action::Spawn);
    assert_eq!(sup.handle_event(Event::Spawned), Action::ReadLine);
    sup
}

#[test]
fn line_buffer_splits_partial_reads() {
    let mut buf = LineBuffer::new();
    buf.push_bytes(b"ab");
    assert!(buf.take_line(false).is_empty());
    buf.push_bytes(b"c\n\nde");
    assert_eq!(buf.take_line(false), b"abc\n".to_vec());
    assert_eq!(buf.take_line(false), b"\n".to_vec());
    assert!(buf.take_line(false).is_empty());
    assert_eq!(buf.pending_len(), 2);
    assert_eq!(buf.take_line(true), b"de".to_vec());
    assert!(buf.take_line(true).is_empty());
}

#[test]
fn marker_found_anywhere_in_line() {
    assert_eq!(marker_bytes(), b"TUNNEL_MANAGER MAIN LOOP".to_vec());
    assert!(contains_marker(b"TUNNEL_MANAGER MAIN LOOP"));
    assert!(contains_marker(b"TUNNEL_MANAGER MAIN LOOP started\n"));
    assert!(contains_marker(b"[info] TUNNEL_MANAGER MAIN LOOP"));
    assert!(contains_marker(b"xx TUNNEL_MANAGER MAIN LOOPyy"));
    assert!(!contains_marker(b"TUNNEL_MANAGER MAIN LOO"));
    assert!(!contains_marker(b"tunnel_manager main loop"));
    assert!(!contains_marker(b""));
}

#[test]
fn closed_stream_without_marker_respawns_once() {
    let mut sup = started();
    let mut channel = Vec::new();
    let end = run_attempt(&mut sup, &[b"a\nb\n", b"c"], &mut channel);
    assert_eq!(end, Action::ReapThenRespawn);
    assert_eq!(sup.phase, Phase::Spawning);
    assert_eq!(sup.retries, 1);
    assert_eq!(channel, vec![b"a\n".to_vec(), b"b\n".to_vec(), b"c".to_vec()]);
    assert_eq!(sup.handle_event(Event::Spawned), Action::ReadLine);
    assert_eq!(sup.phase, Phase::AwaitingReadiness);
}

#[test]
fn repeated_immediate_closure_keeps_respawning() {
    let mut sup = started();
    for n in 1..=50u64 {
        assert_eq!(sup.handle_event(Event::StreamClosed), Action::ReapThenRespawn);
        assert_eq!(sup.retries, n);
        assert_eq!(sup.handle_event(Event::Spawned), Action::ReadLine);
    }
}

#[test]
fn retry_ceiling_gives_up() {
    let mut sup = Supervisor::new(Some(2));
    sup.handle_event(Event::Start);
    for _ in 0..2 {
        sup.handle_event(Event::Spawned);
        assert_eq!(sup.handle_event(Event::StreamClosed), Action::ReapThenRespawn);
    }
    sup.handle_event(Event::Spawned);
    assert_eq!(sup.handle_event(Event::StreamClosed), Action::ReapThenGiveUp);
    assert_eq!(sup.phase, Phase::Failed);
}

#[test]
fn spawn_failure_is_fatal() {
    let mut sup = Supervisor::new(None);
    sup.handle_event(Event::Start);
    assert_eq!(sup.handle_event(Event::SpawnFailed), Action::Abort);
    assert_eq!(sup.phase, Phase::Failed);
    assert_eq!(sup.handle_event(Event::Start), Action::Ignore);
}

#[test]
fn readiness_on_first_marker_line_only() {
    let mut sup = started();
    let lines: [&[u8]; 4] = [
        b"boot\n",
        b"x TUNNEL_MANAGER MAIN LOOP\n",
        b"TUNNEL_MANAGER MAIN LOOP\n",
        b"more\n",
    ];
    let actions: Vec<Action> = lines.iter().map(|l| sup.handle_line(l)).collect();
    assert_eq!(
        actions,
        vec![Action::ForwardThenRead, Action::ForwardThenHandOff, Action::Ignore, Action::Ignore]
    );
    assert_eq!(sup.phase, Phase::Ready);
}

#[test]
fn every_line_reaches_channel_in_order() {
    let mut sup = started();
    let mut channel = Vec::new();
    assert_eq!(
        run_attempt(&mut sup, &[b"one\ntwo\n"], &mut channel),
        Action::ReapThenRespawn
    );
    sup.handle_event(Event::Spawned);
    assert_eq!(
        run_attempt(&mut sup, &[b"three\nTUNNEL_MANAGER ", b"MAIN LOOP\n"], &mut channel),
        Action::ForwardThenHandOff
    );
    let mut relay = Relay::new();
    for line in [b"four\n".to_vec(), b"five".to_vec()] {
        assert_eq!(relay.on_read(&line), RelayAction::Push);
        channel.push(line);
    }
    assert_eq!(relay.on_read(b""), RelayAction::Stop);
    let expected: Vec<Vec<u8>> = vec![
        b"one\n".to_vec(),
        b"two\n".to_vec(),
        b"three\n".to_vec(),
        b"TUNNEL_MANAGER MAIN LOOP\n".to_vec(),
        b"four\n".to_vec(),
        b"five".to_vec(),
    ];
    assert_eq!(channel, expected);
}

#[test]
fn relay_stops_on_zero_length_read() {
    let mut relay = Relay::new();
    assert_eq!(relay.on_read(b"x\n"), RelayAction::Push);
    assert_eq!(relay.on_read(b""), RelayAction::Stop);
    assert!(relay.finished);
    assert_eq!(relay.on_read(b"late\n"), RelayAction::Stop);
}

#[test]
fn end_to_end_ready_after_third_line() {
    let mut sup = started();
    let mut buf = LineBuffer::new();
    buf.push_bytes(b"starting\nloading config\nTUNNEL_MANAGER MAIN LOOP\nextra diag\n");
    let mut channel = Vec::new();
    let mut consumed = 0;
    loop {
        let line = buf.take_line(false);
        assert!(!line.is_empty());
        consumed += 1;
        let action = sup.handle_line(&line);
        channel.push(line);
        if action == Action::ForwardThenHandOff {
            break;
        }
    }
    assert_eq!(consumed, 3);
    assert_eq!(sup.phase, Phase::Ready);
    let mut relay = Relay::new();
    let line = buf.take_line(false);
    assert_eq!(relay.on_read(&line), RelayAction::Push);
    channel.push(line);
    assert_eq!(channel[3], b"extra diag\n".to_vec());
    assert_eq!(channel.len(), 4);
}

#[test]
fn lines_of_many_failed_attempts_reach_channel() {
    let mut sup = started();
    let mut channel = Vec::new();
    let attempts: [&[u8]; 3] = [b"a\n\na\n", b"", b"b\n"];
    for attempt in attempts {
        assert_eq!(run_attempt(&mut sup, &[attempt], &mut channel), Action::ReapThenRespawn);
        assert_eq!(sup.handle_event(Event::Spawned), Action::ReadLine);
    }
    assert_eq!(
        run_attempt(&mut sup, &[b"c\nTUNNEL_MANAGER MAIN LOOP\n"], &mut channel),
        Action::ForwardThenHandOff
    );
    assert_eq!(sup.retries, 3);
    let expected: Vec<Vec<u8>> = vec![
        b"a\n".to_vec(),
        b"\n".to_vec(),
        b"a\n".to_vec(),
        b"b\n".to_vec(),
        b"c\n".to_vec(),
        b"TUNNEL_MANAGER MAIN LOOP\n".to_vec(),
    ];
    assert_eq!(channel, expected);
}
