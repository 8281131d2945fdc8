use dyndns_bridge::model::{DnsRecord, Notification, TransportError, UpdateRequest, Zone, ZoneEntry};
use dyndns_bridge::reconciler::{
    after_record_lookup, after_update, after_zone_lookup, begin, step, Action, Event, Failure,
    Missing, RunState,
};

fn notification() -> Notification {
    Notification::new("203.0.113.9", "home.example.com", "tok")
}

fn example_directory() -> Vec<ZoneEntry> {
    vec![ZoneEntry::new("example.com", "z1")]
}

fn write(ip: &str) -> UpdateRequest {
    UpdateRequest { content: ip.to_string(), ttl: 120, proxied: false }
}

fn update_asked(zone_id: &str, record_id: &str, ip: &str) -> Action {
    Action::UpdateRecord {
        zone_id: zone_id.to_string(),
        record_id: record_id.to_string(),
        request: write(ip),
    }
}

fn transport(detail: &str) -> Event {
    Event::TransportFailed(TransportError::new(detail))
}

fn failed_by_transport(detail: &str) -> RunState {
    RunState::Failed(Failure::Transport(TransportError::new(detail)))
}

#[test]
fn run_opens_by_asking_for_the_parent_zone() {
    let (state, action) = begin(&notification());
    assert_eq!(state, RunState::Start);
    assert_eq!(action, Action::ResolveZone { parent: "example.com".to_string() });
    assert!(!state.is_terminal());
}

#[test]
fn run_for_a_name_without_dot_is_over_at_once() {
    let (state, action) = begin(&Notification::new("203.0.113.9", "localhost", "tok"));
    assert_eq!(state, RunState::NotFound(Missing::Zone));
    assert_eq!(action, Action::Stop);
    assert!(state.is_terminal());
}

#[test]
fn end_to_end_update() {
    let n = notification();
    let (state, action) = begin(&n);
    assert_eq!(action, Action::ResolveZone { parent: "example.com".to_string() });
    assert_eq!(
        action.url(),
        Some("https://api.cloudflare.com/client/v4/zones?name=example.com".to_string())
    );

    let (state, action) = step(&n, state, Event::ZoneDirectory(example_directory()));
    assert_eq!(state, RunState::ZoneResolved { zone: Zone::new("z1") });
    assert_eq!(
        action,
        Action::LocateRecord { zone_id: "z1".to_string(), name: "home.example.com".to_string() }
    );
    assert_eq!(
        action.url(),
        Some(
            "https://api.cloudflare.com/client/v4/zones/z1/dns_records?type=A&name=home.example.com"
                .to_string()
        )
    );

    let records = vec![DnsRecord::new("r1", "203.0.113.1")];
    let (state, action) = step(&n, state, Event::RecordList(records));
    assert_eq!(
        state,
        RunState::RecordLocated {
            zone: Zone::new("z1"),
            record: DnsRecord::new("r1", "203.0.113.1"),
        }
    );
    assert_eq!(action, update_asked("z1", "r1", "203.0.113.9"));
    assert_eq!(
        action.url(),
        Some("https://api.cloudflare.com/client/v4/zones/z1/dns_records/r1".to_string())
    );

    let (state, action) =
        step(&n, state, Event::UpdateAnswer { status: 200, body: "{\"success\":true}".to_string() });
    assert_eq!(state, RunState::Updated);
    assert_eq!(action, Action::Stop);
    assert_eq!(action.url(), None);
    assert!(state.is_terminal());
}

#[test]
fn end_to_end_no_matching_zone() {
    let n = notification();
    let (state, _) = begin(&n);
    let directory = vec![ZoneEntry::new("example.org", "z9")];
    let (state, action) = step(&n, state, Event::ZoneDirectory(directory));
    assert_eq!(state, RunState::NotFound(Missing::Zone));
    assert_eq!(action, Action::Stop);
    assert!(state.is_terminal());
}

#[test]
fn end_to_end_empty_zone_directory() {
    let n = notification();
    let (state, _) = begin(&n);
    let (state, action) = step(&n, state, Event::ZoneDirectory(Vec::new()));
    assert_eq!(state, RunState::NotFound(Missing::Zone));
    assert_eq!(action, Action::Stop);
}

#[test]
fn no_record_ends_the_run_as_not_found() {
    let n = notification();
    let state = RunState::ZoneResolved { zone: Zone::new("z1") };
    let (state, action) = step(&n, state, Event::RecordList(Vec::new()));
    assert_eq!(state, RunState::NotFound(Missing::Record));
    assert_eq!(action, Action::Stop);
    assert!(state.is_terminal());
}

#[test]
fn first_of_several_records_is_updated() {
    let n = notification();
    let state = RunState::ZoneResolved { zone: Zone::new("z1") };
    let records = vec![DnsRecord::new("r5", "198.51.100.5"), DnsRecord::new("r6", "198.51.100.6")];
    let (state, action) = step(&n, state, Event::RecordList(records));
    assert_eq!(
        state,
        RunState::RecordLocated {
            zone: Zone::new("z1"),
            record: DnsRecord::new("r5", "198.51.100.5"),
        }
    );
    assert_eq!(action, update_asked("z1", "r5", "203.0.113.9"));
}

#[test]
fn provider_rejection_fails_the_run_with_status_and_body() {
    let n = notification();
    let state = RunState::RecordLocated {
        zone: Zone::new("z1"),
        record: DnsRecord::new("r1", "203.0.113.1"),
    };
    let (state, action) =
        step(&n, state, Event::UpdateAnswer { status: 403, body: "denied".to_string() });
    assert_eq!(
        state,
        RunState::Failed(Failure::ProviderRejected { status: 403, body: "denied".to_string() })
    );
    assert_eq!(action, Action::Stop);
    assert!(state.is_terminal());
}

#[test]
fn transport_failure_while_resolving_the_zone() {
    let n = notification();
    let (state, _) = begin(&n);
    let (state, action) = step(&n, state, transport("connection refused"));
    assert_eq!(state, failed_by_transport("connection refused"));
    assert_eq!(action, Action::Stop);
    let (state, action) = step(&n, state, Event::RecordList(vec![DnsRecord::new("r1", "x")]));
    assert_eq!(state, failed_by_transport("connection refused"));
    assert_eq!(action, Action::Stop);
}

#[test]
fn transport_failure_while_locating_the_record() {
    let n = notification();
    let state = RunState::ZoneResolved { zone: Zone::new("z1") };
    let (state, action) = step(&n, state, transport("timed out"));
    assert_eq!(state, failed_by_transport("timed out"));
    assert_eq!(action, Action::Stop);
    let (state, action) =
        step(&n, state, Event::UpdateAnswer { status: 200, body: String::new() });
    assert_eq!(state, failed_by_transport("timed out"));
    assert_eq!(action, Action::Stop);
}

#[test]
fn transport_failure_while_updating() {
    let n = notification();
    let state = RunState::RecordLocated {
        zone: Zone::new("z1"),
        record: DnsRecord::new("r1", "203.0.113.1"),
    };
    let (state, action) = step(&n, state, transport("reset by peer"));
    assert_eq!(state, failed_by_transport("reset by peer"));
    assert_eq!(action, Action::Stop);
    assert!(state.is_terminal());
}

#[test]
fn run_that_is_over_ignores_every_answer() {
    let n = notification();
    let answers = || {
        vec![
            Event::ZoneDirectory(example_directory()),
            Event::RecordList(vec![DnsRecord::new("r1", "203.0.113.1")]),
            Event::UpdateAnswer { status: 200, body: String::new() },
            transport("late"),
        ]
    };
    for event in answers() {
        assert_eq!(step(&n, RunState::Updated, event), (RunState::Updated, Action::Stop));
    }
    for event in answers() {
        assert_eq!(
            step(&n, RunState::NotFound(Missing::Record), event),
            (RunState::NotFound(Missing::Record), Action::Stop)
        );
    }
    for event in answers() {
        assert_eq!(
            step(&n, RunState::Failed(Failure::OutOfTurn), event),
            (RunState::Failed(Failure::OutOfTurn), Action::Stop)
        );
    }
}

#[test]
fn answer_out_of_turn_fails_the_run() {
    let n = notification();
    let out_of_turn = (RunState::Failed(Failure::OutOfTurn), Action::Stop);
    let records = || Event::RecordList(vec![DnsRecord::new("r1", "203.0.113.1")]);
    let answer = || Event::UpdateAnswer { status: 200, body: String::new() };
    let zones = || Event::ZoneDirectory(example_directory());
    let resolved = || RunState::ZoneResolved { zone: Zone::new("z1") };
    let located = || RunState::RecordLocated {
        zone: Zone::new("z1"),
        record: DnsRecord::new("r1", "203.0.113.1"),
    };
    assert_eq!(step(&n, RunState::Start, records()), out_of_turn);
    assert_eq!(step(&n, RunState::Start, answer()), out_of_turn);
    assert_eq!(step(&n, resolved(), zones()), out_of_turn);
    assert_eq!(step(&n, resolved(), answer()), out_of_turn);
    assert_eq!(step(&n, located(), zones()), out_of_turn);
    assert_eq!(step(&n, located(), records()), out_of_turn);
}

#[test]
fn update_is_not_skipped_when_the_record_already_holds_the_address() {
    let n = notification();
    let mut writes = 0;
    for _ in 0..2 {
        let (state, _) = begin(&n);
        let (state, _) = step(&n, state, Event::ZoneDirectory(example_directory()));
        let records = vec![DnsRecord::new("r1", "203.0.113.9")];
        let (state, action) = step(&n, state, Event::RecordList(records));
        assert_eq!(action, update_asked("z1", "r1", "203.0.113.9"));
        writes += 1;
        let (state, action) =
            step(&n, state, Event::UpdateAnswer { status: 200, body: String::new() });
        assert_eq!(state, RunState::Updated);
        assert_eq!(action, Action::Stop);
    }
    assert_eq!(writes, 2);
}

#[test]
fn update_overwrites_whatever_the_record_held() {
    let n = notification();
    for content in ["203.0.113.1", "203.0.113.9", "", "2001:db8::1"] {
        let (_, action) =
            after_record_lookup(&n, Zone::new("z1"), &vec![DnsRecord::new("r1", content)]);
        assert_eq!(action, update_asked("z1", "r1", "203.0.113.9"));
    }
}

#[test]
fn stages_agree_with_step() {
    let n = notification();
    assert_eq!(
        after_zone_lookup(&n, &example_directory()),
        step(&n, RunState::Start, Event::ZoneDirectory(example_directory()))
    );
    let records = vec![DnsRecord::new("r1", "203.0.113.1")];
    assert_eq!(
        after_record_lookup(&n, Zone::new("z1"), &records),
        step(
            &n,
            RunState::ZoneResolved { zone: Zone::new("z1") },
            Event::RecordList(vec![DnsRecord::new("r1", "203.0.113.1")])
        )
    );
    assert_eq!(after_update(204, String::new()), (RunState::Updated, Action::Stop));
    assert_eq!(
        after_update(500, "oops".to_string()),
        (
            RunState::Failed(Failure::ProviderRejected { status: 500, body: "oops".to_string() }),
            Action::Stop
        )
    );
}

#[test]
fn every_run_is_over_after_three_answers() {
    let n = notification();
    let (state, action) = begin(&n);
    assert_ne!(action, Action::Stop);
    let (state, action) = step(&n, state, Event::ZoneDirectory(example_directory()));
    assert_ne!(action, Action::Stop);
    let (state, action) = step(&n, state, Event::RecordList(vec![DnsRecord::new("r1", "x")]));
    assert_ne!(action, Action::Stop);
    let (state, action) = step(&n, state, Event::UpdateAnswer { status: 502, body: String::new() });
    assert!(state.is_terminal());
    assert_eq!(action, Action::Stop);
}

#[test]
fn running_states_are_not_terminal() {
    assert!(!RunState::Start.is_terminal());
    assert!(!RunState::ZoneResolved { zone: Zone::new("z") }.is_terminal());
    assert!(!RunState::RecordLocated { zone: Zone::new("z"), record: DnsRecord::new("r", "c") }
        .is_terminal());
    assert!(RunState::Updated.is_terminal());
    assert!(RunState::NotFound(Missing::Zone).is_terminal());
    assert!(RunState::NotFound(Missing::Record).is_terminal());
    assert!(failed_by_transport("x").is_terminal());
}
