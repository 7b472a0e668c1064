use tull::gateway::Surface;
use tull::launch::{
    api_url, check_api_status, parse_host, parse_octet, start_server_if_not_exists,
    status_message, surface_url, HostAddress, LaunchAction, LaunchEvent, LaunchPhase,
    ProbeOutcome, PROBE_TIMEOUT_SECONDS,
};

fn run(events: &[LaunchEvent]) -> (LaunchPhase, Vec<LaunchAction>) {
    let mut phase = LaunchPhase::Probing;
    let mut actions = Vec::new();
    for event in events {
        let (next, action) = start_server_if_not_exists(phase, *event);
        phase = next;
        actions.extend(action);
    }
    (phase, actions)
}

#[test]
fn any_response_means_alive() {
    assert!(check_api_status(ProbeOutcome::Answered(200)));
    assert!(check_api_status(ProbeOutcome::Answered(404)));
    assert!(check_api_status(ProbeOutcome::Answered(500)));
}

#[test]
fn every_failure_means_down() {
    assert!(!check_api_status(ProbeOutcome::Unreachable));
    assert!(!check_api_status(ProbeOutcome::TimedOut));
    assert!(!check_api_status(ProbeOutcome::Failed));
}

#[test]
fn probe_wait_is_bounded() {
    assert_eq!(PROBE_TIMEOUT_SECONDS, 30);
}

#[test]
fn status_messages() {
    assert_eq!(status_message(true), "API is alive!");
    assert_eq!(status_message(false), "API is down. Use --start option.");
}

#[test]
fn probe_address_is_the_json_listing() {
    assert_eq!(api_url("127.0.0.1", 17171), "http://127.0.0.1:17171/tull/api");
    assert_eq!(api_url("10.0.0.5", 80), "http://10.0.0.5:80/tull/api");
}

#[test]
fn surface_addresses() {
    assert_eq!(surface_url("127.0.0.1", 17171, Surface::Web), "http://127.0.0.1:17171/tull/web");
    assert_eq!(surface_url("127.0.0.1", 17171, Surface::Raw), "http://127.0.0.1:17171/tull/raw");
    assert_eq!(surface_url("localhost", 0, Surface::Api), "http://localhost:0/tull/api");
    assert_eq!(surface_url("h", 65535, Surface::Api), "http://h:65535/tull/api");
}

#[test]
fn answered_probe_starts_nothing() {
    let (phase, actions) = run(&[LaunchEvent::Probed(ProbeOutcome::Answered(200))]);
    assert_eq!(phase, LaunchPhase::Done);
    assert_eq!(actions, vec![]);
}

#[test]
fn failed_probe_opens_log_then_starts_server() {
    let (phase, actions) = run(&[
        LaunchEvent::Probed(ProbeOutcome::Unreachable),
        LaunchEvent::LogOpened,
        LaunchEvent::Spawned,
    ]);
    assert_eq!(phase, LaunchPhase::Done);
    assert_eq!(actions, vec![LaunchAction::OpenLog, LaunchAction::Spawn]);
}

#[test]
fn failed_start_warns_and_goes_on() {
    let (phase, actions) = run(&[
        LaunchEvent::Probed(ProbeOutcome::TimedOut),
        LaunchEvent::LogOpened,
        LaunchEvent::SpawnFailed,
    ]);
    assert_eq!(phase, LaunchPhase::Done);
    assert_eq!(actions, vec![LaunchAction::OpenLog, LaunchAction::Spawn, LaunchAction::Warn]);
}

#[test]
fn launcher_steps_one_by_one() {
    assert_eq!(
        start_server_if_not_exists(LaunchPhase::Probing, LaunchEvent::Probed(ProbeOutcome::Failed)),
        (LaunchPhase::OpeningLog, Some(LaunchAction::OpenLog))
    );
    assert_eq!(
        start_server_if_not_exists(LaunchPhase::OpeningLog, LaunchEvent::LogOpened),
        (LaunchPhase::Spawning, Some(LaunchAction::Spawn))
    );
    assert_eq!(
        start_server_if_not_exists(LaunchPhase::Spawning, LaunchEvent::Spawned),
        (LaunchPhase::Done, None)
    );
}

#[test]
fn events_that_do_not_fit_change_nothing() {
    assert_eq!(
        start_server_if_not_exists(LaunchPhase::Probing, LaunchEvent::Spawned),
        (LaunchPhase::Probing, None)
    );
    assert_eq!(
        start_server_if_not_exists(LaunchPhase::Done, LaunchEvent::Probed(ProbeOutcome::Failed)),
        (LaunchPhase::Done, None)
    );
    assert_eq!(
        start_server_if_not_exists(LaunchPhase::OpeningLog, LaunchEvent::SpawnFailed),
        (LaunchPhase::OpeningLog, None)
    );
}

#[test]
fn server_is_started_at_most_once() {
    let events = [
        LaunchEvent::Probed(ProbeOutcome::Unreachable),
        LaunchEvent::LogOpened,
        LaunchEvent::LogOpened,
        LaunchEvent::Spawned,
        LaunchEvent::Probed(ProbeOutcome::Unreachable),
        LaunchEvent::LogOpened,
        LaunchEvent::SpawnFailed,
    ];
    let (phase, actions) = run(&events);
    assert_eq!(phase, LaunchPhase::Done);
    assert_eq!(actions.iter().filter(|a| **a == LaunchAction::Spawn).count(), 1);
}

#[test]
fn parse_octet_reads_numbers_up_to_255() {
    assert_eq!(parse_octet("0"), Some(0));
    assert_eq!(parse_octet("7"), Some(7));
    assert_eq!(parse_octet("127"), Some(127));
    assert_eq!(parse_octet("255"), Some(255));
    assert_eq!(parse_octet("256"), None);
    assert_eq!(parse_octet("1000"), None);
    assert_eq!(parse_octet("99999999999999999999"), None);
}

#[test]
fn parse_octet_takes_plus_sign_and_leading_zeros() {
    assert_eq!(parse_octet("+5"), Some(5));
    assert_eq!(parse_octet("007"), Some(7));
    assert_eq!(parse_octet("+000255"), Some(255));
}

#[test]
fn parse_octet_refuses_what_is_no_number() {
    assert_eq!(parse_octet(""), None);
    assert_eq!(parse_octet("+"), None);
    assert_eq!(parse_octet("-1"), None);
    assert_eq!(parse_octet("++1"), None);
    assert_eq!(parse_octet("1+"), None);
    assert_eq!(parse_octet(" 1"), None);
    assert_eq!(parse_octet("1 "), None);
    assert_eq!(parse_octet("1a"), None);
    assert_eq!(parse_octet("a"), None);
    assert_eq!(parse_octet("300x"), None);
}

#[test]
fn parse_octet_agrees_with_std() {
    for text in ["", "+", "0", "+0", "00", "9", "10", "199", "255", "256", "0255", "+255", "-0", "2 5", "٣"] {
        assert_eq!(parse_octet(text), text.parse::<u8>().ok());
    }
}

#[test]
fn parse_host_reads_dotted_address() {
    assert_eq!(parse_host("127.0.0.1"), Some(HostAddress { a: 127, b: 0, c: 0, d: 1 }));
    assert_eq!(parse_host("0.0.0.0"), Some(HostAddress { a: 0, b: 0, c: 0, d: 0 }));
    assert_eq!(parse_host("255.255.255.255"), Some(HostAddress { a: 255, b: 255, c: 255, d: 255 }));
    assert_eq!(parse_host("192.168.1.20"), Some(HostAddress { a: 192, b: 168, c: 1, d: 20 }));
}

#[test]
fn parse_host_takes_the_first_four_numbers() {
    assert_eq!(parse_host("1.2.3.4.5"), Some(HostAddress { a: 1, b: 2, c: 3, d: 4 }));
}

#[test]
fn parse_host_refuses_other_texts() {
    assert_eq!(parse_host(""), None);
    assert_eq!(parse_host("localhost"), None);
    assert_eq!(parse_host("1.2.3"), None);
    assert_eq!(parse_host("1.2.3."), None);
    assert_eq!(parse_host("1.2.3.256"), None);
    assert_eq!(parse_host("1..3.4"), None);
    assert_eq!(parse_host("1.2.3.4.x"), None);
    assert_eq!(parse_host("1.2.3.4."), None);
}
