use domeneshop_cli::address::{AddressValue, IpAddress};
use domeneshop_cli::commands::dyndns::{
    get_execution_log_file, get_last_ip_file, handle_dyndns, Action, Command, Event, ExecutionLogEntry,
    LocalStateWarning, Outcome, Phase, Reconciliation, Stored,
};
use domeneshop_cli::failure::{Failure, Operation};
use std::path::PathBuf;

fn v4(a: u8, b: u8, c: u8, d: u8) -> IpAddress {
    let bits = u32::from_be_bytes([a, b, c, d]);
    IpAddress::new(AddressValue::V4(bits), format!("{}.{}.{}.{}", a, b, c, d))
}

fn command() -> Command {
    Command { domain: "example.com".to_string() }
}

/// Plays the part of the driver: answers each request from the given
/// answers, and records what the machine asked for.
struct Driver {
    resolved: Option<IpAddress>,
    stored: Option<Stored>,
    update: Result<(), String>,
    write_ok: bool,
    append_ok: bool,
    file: Option<String>,
    log: Vec<String>,
    calls: Vec<(String, String)>,
    warnings: Vec<LocalStateWarning>,
}

impl Driver {
    fn new(resolved: Option<IpAddress>, stored: Stored) -> Driver {
        Driver {
            resolved,
            stored: Some(stored),
            update: Ok(()),
            write_ok: true,
            append_ok: true,
            file: None,
            log: Vec::new(),
            calls: Vec::new(),
            warnings: Vec::new(),
        }
    }

    fn run(&mut self) -> Outcome {
        let mut state = Reconciliation::start(&command());
        for _ in 0..10 {
            let event = match state.request() {
                Action::ResolveAddress => Event::Resolved(self.resolved.clone()),
                Action::ReadLastAddress => Event::StoredRead(self.stored.take().unwrap()),
                Action::UpdateRegistrar { domain, address } => {
                    self.calls.push((domain, address.literal));
                    Event::UpdateFinished(self.update.clone())
                }
                Action::WriteLastAddress { address } => {
                    if self.write_ok {
                        self.file = Some(address.literal);
                    }
                    Event::Written(self.write_ok)
                }
                Action::AppendLog { entry } => {
                    if self.append_ok {
                        self.log.push(entry.line());
                    }
                    Event::Appended(self.append_ok)
                }
                Action::Finish { outcome } => return outcome,
            };
            if let Some(warning) = state.warning(&event) {
                self.warnings.push(warning);
            }
            state = state.step(event);
        }
        panic!("the machine did not finish");
    }
}

#[test]
fn unchanged_address_is_left_alone() {
    let mut driver = Driver::new(Some(v4(203, 0, 113, 5)), Stored::Known(v4(203, 0, 113, 5)));
    driver.log.push("earlier".to_string());
    let outcome = driver.run();
    assert!(matches!(outcome, Outcome::Unchanged));
    assert!(outcome.is_success());
    assert_eq!(outcome.message(), "IP hasn't changed since last time. Exiting");
    assert!(driver.calls.is_empty());
    assert_eq!(driver.file, None);
    assert_eq!(driver.log, vec!["earlier".to_string()]);
    assert!(driver.warnings.is_empty());
}

#[test]
fn unchanged_address_stays_unchanged_over_many_runs() {
    for _ in 0..5 {
        let mut driver = Driver::new(Some(v4(203, 0, 113, 5)), Stored::Known(v4(203, 0, 113, 5)));
        assert!(matches!(driver.run(), Outcome::Unchanged));
        assert!(driver.calls.is_empty());
        assert!(driver.log.is_empty());
        assert_eq!(driver.file, None);
    }
}

#[test]
fn equality_goes_by_the_value_not_the_literal() {
    let stored = IpAddress::new(
        AddressValue::V6(0x2001_0db8_0000_0000_0000_0000_0000_0001),
        "2001:DB8:0:0:0:0:0:1".to_string(),
    );
    let resolved = IpAddress::new(
        AddressValue::V6(0x2001_0db8_0000_0000_0000_0000_0000_0001),
        "2001:db8::1".to_string(),
    );
    assert!(stored.is_same_as(&resolved));
    let mut driver = Driver::new(Some(resolved), Stored::Known(stored));
    assert!(matches!(driver.run(), Outcome::Unchanged));
    assert!(driver.calls.is_empty());
}

#[test]
fn families_are_told_apart() {
    let mapped = IpAddress::new(AddressValue::V6(0xffff_c000_0201), "::ffff:192.0.2.1".to_string());
    assert!(!mapped.is_same_as(&v4(192, 0, 2, 1)));
    assert!(!v4(0, 0, 0, 1).is_same_as(&IpAddress::new(AddressValue::V6(1), "::1".to_string())));
}

#[test]
fn first_run_stores_and_logs() {
    let mut driver = Driver::new(Some(v4(198, 51, 100, 9)), Stored::Unreadable);
    let outcome = driver.run();
    match &outcome {
        Outcome::Updated(address) => assert_eq!(address.literal, "198.51.100.9"),
        other => panic!("unexpected outcome {:?}", other),
    }
    assert!(outcome.is_success());
    assert_eq!(outcome.message(), "Updated ip to 198.51.100.9");
    assert_eq!(
        driver.calls,
        vec![("example.com".to_string(), "198.51.100.9".to_string())]
    );
    assert_eq!(driver.file, Some("198.51.100.9".to_string()));
    assert_eq!(driver.log.len(), 1);
    assert!(driver.log[0].ends_with(": Updated from ip None to 198.51.100.9"));
    assert_eq!(driver.warnings, vec![LocalStateWarning::UnreadableLastAddress]);
}

#[test]
fn unparsable_stored_address_counts_as_none() {
    let mut driver = Driver::new(Some(v4(198, 51, 100, 9)), Stored::Unparsable);
    let outcome = driver.run();
    assert!(matches!(outcome, Outcome::Updated(_)));
    assert_eq!(driver.calls.len(), 1);
    assert_eq!(driver.calls[0].1, "198.51.100.9");
    assert_eq!(driver.file, Some("198.51.100.9".to_string()));
    assert_eq!(driver.log.len(), 1);
    assert!(driver.log[0].ends_with(": Updated from ip None to 198.51.100.9"));
    assert_eq!(driver.warnings, vec![LocalStateWarning::UnparsableLastAddress]);
}

#[test]
fn changed_address_is_published_and_logged() {
    let mut driver = Driver::new(Some(v4(198, 51, 100, 9)), Stored::Known(v4(203, 0, 113, 5)));
    let outcome = driver.run();
    assert!(matches!(outcome, Outcome::Updated(_)));
    assert_eq!(
        driver.calls,
        vec![("example.com".to_string(), "198.51.100.9".to_string())]
    );
    assert_eq!(driver.file, Some("198.51.100.9".to_string()));
    assert_eq!(driver.log.len(), 1);
    assert!(driver.log[0].ends_with(": Updated from ip Some(203.0.113.5) to 198.51.100.9"));
    assert!(driver.warnings.is_empty());
}

#[test]
fn refused_update_changes_nothing() {
    let mut driver = Driver::new(Some(v4(198, 51, 100, 9)), Stored::Known(v4(203, 0, 113, 5)));
    driver.update = Err("Unauthorized".to_string());
    let outcome = driver.run();
    match &outcome {
        Outcome::UpdateFailed(error) => assert_eq!(error, "Unauthorized"),
        other => panic!("unexpected outcome {:?}", other),
    }
    assert!(!outcome.is_success());
    assert_eq!(outcome.message(), "Error while updating dns settings: Unauthorized");
    assert_eq!(driver.calls.len(), 1);
    assert_eq!(driver.file, None);
    assert!(driver.log.is_empty());
}

#[test]
fn failed_resolution_ends_the_run_at_once() {
    let mut driver = Driver::new(None, Stored::Known(v4(203, 0, 113, 5)));
    let outcome = driver.run();
    assert!(matches!(outcome, Outcome::ResolutionFailed));
    assert!(!outcome.is_success());
    assert_eq!(outcome.message(), "Unable to resolve ip");
    assert!(driver.calls.is_empty());
    assert!(driver.stored.is_some());
    assert_eq!(driver.file, None);
    assert!(driver.log.is_empty());
}

#[test]
fn failed_writes_are_warnings_only() {
    let mut driver = Driver::new(Some(v4(198, 51, 100, 9)), Stored::Known(v4(203, 0, 113, 5)));
    driver.write_ok = false;
    driver.append_ok = false;
    let outcome = driver.run();
    assert!(matches!(outcome, Outcome::Updated(_)));
    assert_eq!(driver.file, None);
    assert!(driver.log.is_empty());
    assert_eq!(
        driver.warnings,
        vec![LocalStateWarning::UnwritableLastAddress, LocalStateWarning::UnwritableLog]
    );
}

#[test]
fn an_event_that_answers_nothing_is_ignored() {
    let state = Reconciliation::start(&command());
    let state = state.step(Event::Written(true));
    assert!(matches!(state.phase, Phase::Resolving));
    assert!(matches!(state.request(), Action::ResolveAddress));
    let state = state.step(Event::Resolved(Some(v4(198, 51, 100, 9))));
    let state = state.step(Event::Resolved(None));
    assert!(matches!(state.phase, Phase::Reading { .. }));
    let state = state.step(Event::StoredRead(Stored::Unreadable));
    let state = state.step(Event::Appended(true));
    assert!(matches!(state.request(), Action::UpdateRegistrar { .. }));
    let state = state.step(Event::UpdateFinished(Ok(())));
    let state = state.step(Event::UpdateFinished(Ok(())));
    assert!(matches!(state.request(), Action::WriteLastAddress { .. }));
    let state = state.step(Event::Written(true));
    let state = state.step(Event::Written(true));
    assert!(matches!(state.request(), Action::AppendLog { .. }));
    let state = state.step(Event::Appended(true));
    let state = state.step(Event::Resolved(None));
    assert!(matches!(state.request(), Action::Finish { outcome: Outcome::Updated(_) }));
}

#[test]
fn step_at_uses_the_given_time() {
    let state = Reconciliation::start(&command());
    let state = state.step_at(Event::Resolved(Some(v4(198, 51, 100, 9))), "t0".to_string());
    let state = state.step_at(Event::StoredRead(Stored::Known(v4(203, 0, 113, 5))), "t1".to_string());
    let state = state.step_at(Event::UpdateFinished(Ok(())), "t2".to_string());
    let state = state.step_at(Event::Written(true), "2024-05-01 10:00:00 UTC".to_string());
    match state.request() {
        Action::AppendLog { entry } => {
            assert_eq!(entry.timestamp, "2024-05-01 10:00:00 UTC");
            assert_eq!(
                entry.line(),
                "2024-05-01 10:00:00 UTC: Updated from ip Some(203.0.113.5) to 198.51.100.9"
            );
        }
        other => panic!("unexpected request {:?}", other),
    }
}

#[test]
fn the_clock_stamps_the_log_entry() {
    let state = Reconciliation::start(&command());
    let state = state.step(Event::Resolved(Some(v4(198, 51, 100, 9))));
    let state = state.step(Event::StoredRead(Stored::Unreadable));
    let state = state.step(Event::UpdateFinished(Ok(())));
    let state = state.step(Event::Written(true));
    match state.request() {
        Action::AppendLog { entry } => {
            assert!(entry.timestamp.ends_with(" UTC"));
            assert!(entry.timestamp.starts_with("20"));
        }
        other => panic!("unexpected request {:?}", other),
    }
}

#[test]
fn log_line_without_previous_address() {
    let entry = ExecutionLogEntry {
        timestamp: "2024-05-01 10:00:00.5 UTC".to_string(),
        previous_address: None,
        new_address: v4(198, 51, 100, 9),
    };
    assert_eq!(
        entry.line(),
        "2024-05-01 10:00:00.5 UTC: Updated from ip None to 198.51.100.9"
    );
}

#[test]
fn state_files_lie_under_the_data_directory() {
    let data_dir = PathBuf::from("/var/lib/domeneshop");
    assert_eq!(
        get_last_ip_file(&data_dir),
        PathBuf::from("/var/lib/domeneshop/last_ip.txt")
    );
    assert_eq!(
        get_execution_log_file(&data_dir),
        PathBuf::from("/var/lib/domeneshop/dyndns_execution.log")
    );
    assert_ne!(get_last_ip_file(&data_dir), data_dir);
}

#[test]
fn the_command_begins_a_run_for_its_domain() {
    let state = handle_dyndns(&command());
    assert_eq!(state.domain, "example.com");
    assert!(matches!(state.phase, Phase::Resolving));
    assert!(matches!(state.request(), Action::ResolveAddress));
}

#[test]
fn only_runs_that_did_not_succeed_have_a_failure() {
    assert!(matches!(
        Outcome::ResolutionFailed.into_failure(),
        Some(Failure::IpResolutionFailed)
    ));
    match Outcome::UpdateFailed("Forbidden".to_string()).into_failure() {
        Some(Failure::ApiCallFailed { operation, error }) => {
            assert_eq!(operation, Operation::UpdateDyndns);
            assert_eq!(error, "Forbidden");
        }
        other => panic!("unexpected {:?}", other),
    }
    assert!(Outcome::Unchanged.into_failure().is_none());
    assert!(Outcome::Updated(v4(198, 51, 100, 9)).into_failure().is_none());
}
