use scitsifreine::Tmux;

#[test]
fn test_generate_session_name_with_empty_hosts() {
    let session = Tmux::new(vec![], false);
    let session_name = session.generate_session_name("multissh");

    assert_eq!(session_name, "multissh");
}

#[test]
fn test_generate_session_name_with_fqdn_hosts() {
    let session = Tmux::new(
        vec![
            "host1.example.com",
            "host2.example.com",
            "host3.example.com",
        ],
        false,
    );
    let session_name = session.generate_session_name("multissh");

    assert_eq!(session_name, "multissh-host1-host2-host3");
}

#[test]
fn test_generate_session_name_with_plain_hosts() {
    let session = Tmux::new(vec!["alpha", "beta"], false);
    let session_name = session.generate_session_name("multissh");

    assert_eq!(session_name, "multissh-alpha-beta");
}

#[test]
fn test_generate_session_name_is_pure() {
    let session = Tmux::new(vec!["host1.example.com", "host2.example.com"], false);
    let first_name = session.generate_session_name("multissh");
    let second_name = session.generate_session_name("multissh");

    assert_eq!(first_name, second_name);
    assert_eq!(first_name, "multissh-host1-host2");
}
