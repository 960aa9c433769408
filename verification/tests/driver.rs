use scitsifreine::CallRecord;
use scitsifreine::ScriptedRunner;
use scitsifreine::Tmux;
use scitsifreine::TmuxExecutionErrors;

fn assert_call(record: &CallRecord, expected_args: &[&str], expected_ok: bool) {
    assert_eq!(record.program, "tmux");
    assert_eq!(record.args, expected_args);
    assert_eq!(record.ok, expected_ok);
}

#[test]
fn test_is_tmux_available_reports_the_probe_outcome() {
    let mut runner = ScriptedRunner::always_succeeding();
    assert!(Tmux::is_tmux_available(&mut runner));
    assert_eq!(runner.calls().len(), 1);
    assert_call(&runner.calls()[0], &["server-info"], true);

    let mut failing_runner = ScriptedRunner::new(vec![false]);
    assert!(!Tmux::is_tmux_available(&mut failing_runner));
    assert_call(&failing_runner.calls()[0], &["server-info"], false);
}

#[test]
fn test_open_issues_the_full_command_sequence_for_four_hosts() {
    let mut session = Tmux::new(
        vec![
            "host1.example.com",
            "host2.example.com",
            "host3.example.com",
            "host4.example.com",
        ],
        false,
    );
    let mut runner = ScriptedRunner::always_succeeding();

    assert!(session.open(&mut runner));

    let name = "multissh-host1-host2-host3-host4";
    let calls = runner.calls();
    assert_eq!(calls.len(), 15);
    assert_call(&calls[0], &["new-session", "-d", "-s", name], true);
    assert_call(&calls[1], &["rename-window", "-t", "0", "ssh-sessions"], true);
    assert_call(&calls[2], &["split-window", "-v"], true);
    assert_call(&calls[3], &["split-window", "-v"], true);
    assert_call(&calls[4], &["select-pane", "-t", "0"], true);
    assert_call(&calls[5], &["split-window", "-h"], true);
    for (i, host) in [
        "host1.example.com",
        "host2.example.com",
        "host3.example.com",
        "host4.example.com",
    ]
    .iter()
    .copied()
    .enumerate()
    {
        let ssh_text = format!("\"ssh {host}\"");
        assert_call(&calls[6 + 2 * i], &["select-pane", "-t", "0", "-T", host], true);
        assert_call(
            &calls[7 + 2 * i],
            &["send-keys", "-t", "0", ssh_text.as_str(), "C-m"],
            true,
        );
    }
    let attach_target = format!("{name}:0");
    assert_call(
        &calls[14],
        &["attach-session", "-t", attach_target.as_str()],
        true,
    );
}

#[test]
fn test_open_advances_the_pane_address_for_seven_hosts() {
    let mut session = Tmux::new(
        vec!["h1.a", "h2.a", "h3.a", "h4.a", "h5.a", "h6.a", "h7.a"],
        false,
    );
    let mut runner = ScriptedRunner::always_succeeding();

    assert!(session.open(&mut runner));

    // Two stage commands, three vertical splits, three select-and-split
    // pairs, seven select-and-send pairs, and the final attach.
    let calls = runner.calls();
    assert_eq!(calls.len(), 2 + 3 + 6 + 14 + 1);
    assert_call(&calls[2], &["split-window", "-v"], true);
    assert_call(&calls[4], &["split-window", "-v"], true);
    assert_call(&calls[5], &["select-pane", "-t", "0"], true);
    assert_call(&calls[6], &["split-window", "-h"], true);
    assert_call(&calls[7], &["select-pane", "-t", "2"], true);
    assert_call(&calls[8], &["split-window", "-h"], true);
    assert_call(&calls[9], &["select-pane", "-t", "4"], true);
    assert_call(&calls[10], &["split-window", "-h"], true);
}

#[test]
fn test_open_stops_at_a_failing_horizontal_split() {
    let mut session = Tmux::new(
        vec![
            "host1.example.com",
            "host2.example.com",
            "host3.example.com",
            "host4.example.com",
        ],
        false,
    );
    // The first five launches succeed; the sixth, the horizontal split,
    // fails.
    let mut runner = ScriptedRunner::new(vec![true, true, true, true, true, false]);

    assert!(!session.open(&mut runner));

    let name = "multissh-host1-host2-host3-host4";
    let calls = runner.calls();
    assert_eq!(calls.len(), 6);
    assert_call(&calls[0], &["new-session", "-d", "-s", name], true);
    assert_call(&calls[1], &["rename-window", "-t", "0", "ssh-sessions"], true);
    assert_call(&calls[2], &["split-window", "-v"], true);
    assert_call(&calls[3], &["split-window", "-v"], true);
    assert_call(&calls[4], &["select-pane", "-t", "0"], true);
    assert_call(&calls[5], &["split-window", "-h"], false);
    for call in calls {
        assert_ne!(call.args[0], "send-keys");
        assert_ne!(call.args[0], "attach-session");
    }
}

#[test]
fn test_open_returns_false_for_no_hosts_after_creating_the_session() {
    let mut session = Tmux::new(vec![], false);
    let mut runner = ScriptedRunner::always_succeeding();

    assert!(!session.open(&mut runner));

    let calls = runner.calls();
    assert_eq!(calls.len(), 2);
    assert_call(&calls[0], &["new-session", "-d", "-s", "multissh"], true);
    assert_call(&calls[1], &["rename-window", "-t", "0", "ssh-sessions"], true);
}

#[test]
fn test_open_without_auto_attach_skips_the_attach_command() {
    let mut session = Tmux::new_with_attach(vec!["single.example.com"], false, false);
    let mut runner = ScriptedRunner::always_succeeding();

    assert!(session.open(&mut runner));

    let calls = runner.calls();
    assert_eq!(calls.len(), 4);
    assert_call(
        &calls[0],
        &["new-session", "-d", "-s", "multissh-single"],
        true,
    );
    assert_call(&calls[1], &["rename-window", "-t", "0", "ssh-sessions"], true);
    assert_call(
        &calls[2],
        &["select-pane", "-t", "0", "-T", "single.example.com"],
        true,
    );
    assert_call(
        &calls[3],
        &["send-keys", "-t", "0", "\"ssh single.example.com\"", "C-m"],
        true,
    );
}

#[test]
fn test_create_session_failure_is_reported() {
    let session = Tmux::new(vec!["first", "second"], false);
    let mut runner = ScriptedRunner::new(vec![false]);

    let result = session.create_tmux_session_and_window(&mut runner);

    assert_eq!(result, Err(TmuxExecutionErrors::CreateSession));
    assert_eq!(runner.calls().len(), 1);
}

#[test]
fn test_rename_window_failure_is_reported() {
    let session = Tmux::new(vec!["first", "second"], false);
    let mut runner = ScriptedRunner::new(vec![true, false]);

    let result = session.create_tmux_session_and_window(&mut runner);

    assert_eq!(result, Err(TmuxExecutionErrors::RenameWindow));
    assert_eq!(runner.calls().len(), 2);
    assert_call(
        &runner.calls()[1],
        &["rename-window", "-t", "0", "ssh-sessions"],
        false,
    );
}

#[test]
fn test_create_split_panes_fails_without_hosts_before_any_command() {
    let session = Tmux::new(vec![], false);
    let mut runner = ScriptedRunner::always_succeeding();

    let result = session.create_split_panes(&mut runner);

    assert_eq!(result, Err(TmuxExecutionErrors::CalculateSplittingForHosts));
    assert_eq!(runner.calls().len(), 0);
}

#[test]
fn test_vertical_split_failure_is_reported() {
    let session = Tmux::new(vec!["first", "second"], false);
    let mut runner = ScriptedRunner::new(vec![false]);

    let result = session.create_split_panes(&mut runner);

    assert_eq!(result, Err(TmuxExecutionErrors::VerticalSplit));
    assert_eq!(runner.calls().len(), 1);
    assert_call(&runner.calls()[0], &["split-window", "-v"], false);
}

#[test]
fn test_select_pane_failure_during_splitting_is_reported() {
    let session = Tmux::new(vec!["first", "second", "third"], false);
    let mut runner = ScriptedRunner::new(vec![true, false]);

    let result = session.create_split_panes(&mut runner);

    assert_eq!(result, Err(TmuxExecutionErrors::SelectPane));
    assert_eq!(runner.calls().len(), 2);
    assert_call(&runner.calls()[1], &["select-pane", "-t", "0"], false);
}

#[test]
fn test_horizontal_split_failure_is_reported() {
    let session = Tmux::new(vec!["first", "second", "third"], false);
    let mut runner = ScriptedRunner::new(vec![true, true, false]);

    let result = session.create_split_panes(&mut runner);

    assert_eq!(result, Err(TmuxExecutionErrors::HorizontalSplit));
    assert_eq!(runner.calls().len(), 3);
    assert_call(&runner.calls()[2], &["split-window", "-h"], false);
}

#[test]
fn test_create_split_panes_reaches_two_digit_pane_addresses() {
    let hosts = vec![
        "h01", "h02", "h03", "h04", "h05", "h06", "h07", "h08", "h09", "h10", "h11", "h12", "h13",
    ];
    let session = Tmux::new(hosts, false);
    let mut runner = ScriptedRunner::always_succeeding();

    let result = session.create_split_panes(&mut runner);

    // Thirteen hosts need six vertical splits and six select-and-split
    // pairs, with pane addresses 0, 2, 4, 6, 8 and 10.
    assert_eq!(result, Ok(()));
    let calls = runner.calls();
    assert_eq!(calls.len(), 18);
    for call in &calls[0..6] {
        assert_call(call, &["split-window", "-v"], true);
    }
    for pair in 0..6 {
        let address = format!("{}", 2 * pair);
        assert_call(
            &calls[6 + 2 * pair],
            &["select-pane", "-t", address.as_str()],
            true,
        );
        assert_call(&calls[7 + 2 * pair], &["split-window", "-h"], true);
    }
}

#[test]
fn test_select_pane_failure_during_connecting_is_reported() {
    let session = Tmux::new(vec!["first", "second"], false);
    let mut runner = ScriptedRunner::new(vec![false]);

    let result = session.open_ssh_connections(&mut runner);

    assert_eq!(result, Err(TmuxExecutionErrors::SelectPane));
    assert_eq!(runner.calls().len(), 1);
    assert_call(
        &runner.calls()[0],
        &["select-pane", "-t", "0", "-T", "first"],
        false,
    );
}

#[test]
fn test_send_keys_failure_is_reported() {
    let session = Tmux::new(vec!["first", "second"], false);
    let mut runner = ScriptedRunner::new(vec![true, false]);

    let result = session.open_ssh_connections(&mut runner);

    assert_eq!(result, Err(TmuxExecutionErrors::SendKeysToSession));
    assert_eq!(runner.calls().len(), 2);
    assert_call(
        &runner.calls()[1],
        &["send-keys", "-t", "0", "\"ssh first\"", "C-m"],
        false,
    );
}

#[test]
fn test_attach_session_is_best_effort() {
    let session = Tmux::new(vec!["first"], false);
    let mut runner = ScriptedRunner::new(vec![false]);

    session.attach_session(&mut runner);

    assert_eq!(runner.calls().len(), 1);
    assert_call(&runner.calls()[0], &["attach-session", "-t", ":0"], false);
}
