use script_supervisor::discovery::{select_port, Discovery, DiscoveryCommand};
use script_supervisor::ports::{API_PORT_MAX, API_PORT_MIN, CANDIDATE_PORT_COUNT};

#[test]
fn trusted_claim_wins_over_polled_port() {
    assert_eq!(select_port(8765, b"{\"port\": 8766}"), 8766);
    assert_eq!(select_port(8765, b"{\"port\": 8775}"), 8775);
}

#[test]
fn out_of_range_claim_falls_back_to_polled_port() {
    assert_eq!(select_port(8765, b"{\"port\": 5173}"), 8765);
    assert_eq!(select_port(8770, b"{\"port\": 8776}"), 8770);
    assert_eq!(select_port(8770, b"{\"port\": 8764}"), 8770);
    assert_eq!(select_port(8770, b"{\"port\": 99999999999}"), 8770);
}

#[test]
fn non_json_health_body_falls_back_to_polled_port() {
    assert_eq!(select_port(8767, b"ok"), 8767);
    assert_eq!(select_port(8767, b""), 8767);
    assert_eq!(select_port(8767, b"<html>"), 8767);
}

#[test]
fn json_without_port_field_falls_back_to_polled_port() {
    assert_eq!(select_port(8768, b"{\"status\": \"healthy\"}"), 8768);
    assert_eq!(select_port(8768, b"{\"port\": \"8766\"}"), 8768);
    assert_eq!(select_port(8768, b"{\"port\": -1}"), 8768);
}

#[test]
fn discovery_walks_every_candidate_each_round() {
    let mut d = Discovery::new(15000);
    let mut probed = Vec::new();
    loop {
        match d.next_command() {
            DiscoveryCommand::Probe(p) => {
                probed.push(p);
                d.record_no_answer();
            }
            DiscoveryCommand::Sleep(ms) => {
                assert_eq!(ms, 300);
                break;
            }
            DiscoveryCommand::GiveUp => panic!("gave up before the deadline"),
        }
    }
    let expected: Vec<u16> = (API_PORT_MIN..=API_PORT_MAX).collect();
    assert_eq!(probed, expected);
    assert_eq!(probed.len(), CANDIDATE_PORT_COUNT as usize);
}

#[test]
fn discovery_answers_within_two_rounds() {
    // The worker answers on port 8766 in the second round.
    let mut d = Discovery::new(15000);
    let mut rounds = 0;
    let found;
    'outer: loop {
        loop {
            match d.next_command() {
                DiscoveryCommand::Probe(p) => {
                    if rounds == 1 && p == 8766 {
                        found = d.accept(b"{\"port\": 8766}");
                        break 'outer;
                    }
                    d.record_no_answer();
                }
                DiscoveryCommand::Sleep(_) => {
                    rounds += 1;
                    d.record_round_slept();
                    break;
                }
                DiscoveryCommand::GiveUp => panic!("gave up before the deadline"),
            }
        }
    }
    assert_eq!(found, 8766);
    assert_eq!(rounds, 1);
}

#[test]
fn discovery_gives_up_once_the_deadline_has_elapsed() {
    let mut d = Discovery::new(15000);
    let mut slept_ms: u64 = 0;
    let mut gave_up = false;
    while !gave_up {
        match d.next_command() {
            DiscoveryCommand::Probe(_) => d.record_no_answer(),
            DiscoveryCommand::Sleep(ms) => {
                slept_ms += ms;
                d.record_round_slept();
            }
            DiscoveryCommand::GiveUp => gave_up = true,
        }
    }
    assert_eq!(slept_ms, 15000);
}

#[test]
fn zero_timeout_gives_up_at_once() {
    let d = Discovery::new(0);
    assert!(matches!(d.next_command(), DiscoveryCommand::GiveUp));
}

#[test]
fn accepted_port_is_always_in_range() {
    let mut d = Discovery::new(15000);
    loop {
        match d.next_command() {
            DiscoveryCommand::Probe(p) => {
                let chosen = d.accept(b"{\"port\": 70000}");
                assert_eq!(chosen, p);
                assert!((API_PORT_MIN..=API_PORT_MAX).contains(&chosen));
                d.record_no_answer();
            }
            _ => break,
        }
    }
}
