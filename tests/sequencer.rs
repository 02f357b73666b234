use std::collections::VecDeque;

use e2e_test::aggregate::Aggregate;
use e2e_test::checks::{interfaces_match, EventData, ObservedEvent};
use e2e_test::interfaces::{interface_names, ServerDatastream, ServerProperty};
use e2e_test::record::{endpoint, Data, ENDPOINT_COUNT};
use e2e_test::retry::{Retry, RetryDecision};
use e2e_test::sequencer::{
    fixture_value, path_of, Action, Failure, Observation, Outcome, Phase, Sequencer, Step,
    DISCOVERY_ATTEMPTS,
};
use e2e_test::value::AstarteData;

/// In-memory stand-in for the hub, the server and the device.
#[derive(Default)]
struct World {
    catalog_after: usize,
    polls: usize,
    objects: Vec<(String, String, Aggregate)>,
    individuals: Vec<(String, Aggregate)>,
    events: VecDeque<ObservedEvent>,
    log: Vec<String>,
    corrupt_event_at: Option<usize>,
    injected: usize,
}

impl World {
    fn values(&mut self, iface: &str) -> &mut Aggregate {
        if let Some(i) = self.individuals.iter().position(|(n, _)| n == iface) {
            return &mut self.individuals[i].1;
        }
        self.individuals.push((iface.to_string(), Aggregate::new()));
        &mut self.individuals.last_mut().unwrap().1
    }

    fn strip(path: &str) -> String {
        path.trim_start_matches('/').to_string()
    }

    fn push_event(&mut self, interface: String, path: String, data: EventData) {
        self.injected += 1;
        let data = if self.corrupt_event_at == Some(self.injected) { EventData::Unset } else { data };
        self.events.push_back(ObservedEvent { interface, path, data });
    }

    /// Runs the sequencer to its end, returning the failure if any.
    fn run(&mut self, seq: &mut Sequencer) -> Result<(), Failure> {
        loop {
            let action = seq.action();
            let outcome = match action {
                Action::Finished => return Ok(()),
                Action::ListInterfaces => {
                    self.polls += 1;
                    let mut names = if self.polls > self.catalog_after {
                        interface_names()
                    } else {
                        Vec::new()
                    };
                    names.reverse();
                    Outcome::Checked(seq.judge(&Observation::Interfaces(names)))
                }
                Action::SendObject { interface, path, data } => {
                    self.log.push(format!("send {path}"));
                    self.objects.push((interface, path, data));
                    Outcome::Completed
                }
                Action::SendIndividual { interface, path, value } => {
                    self.log.push(format!("send {path}"));
                    self.values(&interface).insert(Self::strip(&path), value);
                    Outcome::Completed
                }
                Action::Unset { interface, path } => {
                    self.log.push(format!("unset {path}"));
                    let key = Self::strip(&path);
                    let values = self.values(&interface);
                    values.entries.retain(|e| e.key != key);
                    Outcome::Completed
                }
                Action::WaitBarrier => {
                    self.log.push("barrier".to_string());
                    Outcome::Synced
                }
                Action::GetAggregate { interface, path } => {
                    let found = self
                        .objects
                        .iter()
                        .rev()
                        .find(|(i, p, _)| *i == interface && *p == path)
                        .map(|(_, _, a)| a.clone());
                    Outcome::Checked(seq.judge(&Observation::Object(found)))
                }
                Action::GetIndividualValues { interface } | Action::GetPropertySet { interface } => {
                    let values = self.values(&interface).clone();
                    Outcome::Checked(seq.judge(&Observation::Values(values)))
                }
                Action::InjectObject { interface, path, data } => {
                    self.push_event(interface, path, EventData::Object(data));
                    Outcome::Completed
                }
                Action::InjectIndividual { interface, path, value } => {
                    self.push_event(interface, path, EventData::Individual(value));
                    Outcome::Completed
                }
                Action::InjectUnset { interface, path } => {
                    self.push_event(interface, path, EventData::Unset);
                    Outcome::Completed
                }
                Action::Receive => {
                    let ev = self.events.pop_front().expect("no event");
                    Outcome::Checked(seq.judge(&Observation::Event(ev)))
                }
                Action::Close => Outcome::Completed,
            };
            seq.advance(outcome)?;
        }
    }
}

#[test]
fn full_run_passes_with_faithful_collaborators() {
    let mut world = World { catalog_after: 3, ..Default::default() };
    let mut seq = Sequencer::new();
    assert_eq!(world.run(&mut seq), Ok(()));
    assert!(seq.is_done());
    assert_eq!(world.polls, 4);
    assert!(world.events.is_empty());
}

#[test]
fn discovery_succeeds_once_catalog_matches() {
    let mut world = World { catalog_after: DISCOVERY_ATTEMPTS - 1, ..Default::default() };
    let mut seq = Sequencer::new();
    assert_eq!(world.run(&mut seq), Ok(()));
    assert_eq!(world.polls, DISCOVERY_ATTEMPTS);
}

#[test]
fn discovery_fails_when_catalog_never_matches() {
    let mut world = World { catalog_after: usize::MAX, ..Default::default() };
    let mut seq = Sequencer::new();
    assert_eq!(world.run(&mut seq), Err(Failure::ExhaustedRetries(Phase::Discovery)));
    assert_eq!(world.polls, DISCOVERY_ATTEMPTS);
}

#[test]
fn interfaces_match_sorted_set() {
    let expected = vec![
        "org.astarte-platform.rust.e2etest.DeviceAggregate".to_string(),
        "org.astarte-platform.rust.e2etest.DeviceDatastream".to_string(),
        "org.astarte-platform.rust.e2etest.DeviceProperty".to_string(),
        "org.astarte-platform.rust.e2etest.ServerAggregate".to_string(),
        "org.astarte-platform.rust.e2etest.ServerDatastream".to_string(),
        "org.astarte-platform.rust.e2etest.ServerProperty".to_string(),
    ];
    assert_eq!(interface_names(), expected);
    assert!(interfaces_match(&expected));
    let mut shuffled = expected.clone();
    shuffled.swap(0, 5);
    assert!(interfaces_match(&shuffled));
    assert!(!interfaces_match(&Vec::new()));
    let mut doubled = expected.clone();
    doubled[1] = doubled[0].clone();
    assert!(!interfaces_match(&doubled));
    let mut extra = expected.clone();
    extra.push("org.astarte-platform.rust.e2etest.AdditionalDeviceDatastream".to_string());
    assert!(!interfaces_match(&extra));
}

#[test]
fn retry_counts_attempts() {
    let mut r = Retry::new(3);
    assert!(r.can_attempt());
    assert_eq!(r.record(false), RetryDecision::Again);
    assert_eq!(r.record(false), RetryDecision::Again);
    assert_eq!(r.record(false), RetryDecision::Exhausted);
    assert!(!r.can_attempt());
    let mut r = Retry::new(3);
    assert_eq!(r.record(false), RetryDecision::Again);
    assert_eq!(r.record(true), RetryDecision::Done);
}

#[test]
fn datastream_publish_goes_to_endpoint_paths() {
    let mut world = World::default();
    let mut seq = Sequencer::new();
    assert_eq!(world.run(&mut seq), Ok(()));
    let stream = world.values("org.astarte-platform.rust.e2etest.DeviceDatastream").clone();
    assert_eq!(stream.len(), ENDPOINT_COUNT);
    let v = stream.get(&"integer_endpoint".to_string()).unwrap();
    assert!(v.equals(&AstarteData::Integer(1)));
    assert_eq!(path_of(1), "/integer_endpoint");
    let sends: Vec<&String> = world.log.iter().filter(|l| l.starts_with("send /")).collect();
    assert_eq!(sends.len(), 1 + 2 * ENDPOINT_COUNT);
    for i in 0..ENDPOINT_COUNT {
        assert_eq!(*sends[1 + i], format!("send /{}", endpoint(i)));
    }
}

#[test]
fn property_set_is_empty_after_unset() {
    let mut world = World::default();
    let mut seq = Sequencer::new();
    assert_eq!(world.run(&mut seq), Ok(()));
    assert!(world.values("org.astarte-platform.rust.e2etest.DeviceProperty").is_empty());
    let unsets = world.log.iter().filter(|l| l.starts_with("unset /")).count();
    assert_eq!(unsets, ENDPOINT_COUNT);
}

#[test]
fn unset_check_fails_while_properties_remain() {
    let mut seq = Sequencer::new();
    seq.phase = Phase::DevicePropertyUnset;
    seq.step = Step::Check;
    let mut left = Aggregate::new();
    left.insert("double_endpoint".to_string(), AstarteData::Double(0));
    assert!(!seq.judge(&Observation::Values(left)));
    assert!(seq.judge(&Observation::Values(Aggregate::new())));
}

#[test]
fn server_events_checked_in_catalog_order() {
    let mut seq = Sequencer::new();
    seq.phase = Phase::ServerDatastream;
    seq.step = Step::Act;
    for i in 0..ENDPOINT_COUNT {
        match seq.action() {
            Action::InjectIndividual { interface, path, value } => {
                assert_eq!(interface, ServerDatastream::name());
                assert_eq!(path, format!("/{}", endpoint(i)));
                assert!(value.equals(&fixture_value(i)));
            }
            other => panic!("unexpected {:?}", other),
        }
        seq.advance(Outcome::Completed).unwrap();
        assert!(matches!(seq.action(), Action::Receive));
        let ev = ObservedEvent {
            interface: ServerDatastream::name().to_string(),
            path: format!("/{}", endpoint(i)),
            data: EventData::Individual(fixture_value(i)),
        };
        assert!(seq.judge(&Observation::Event(ev)));
        seq.advance(Outcome::Checked(true)).unwrap();
    }
    assert_eq!(seq.phase, Phase::ServerProperty);
    assert_eq!(seq.index, 0);
}

#[test]
fn server_event_out_of_order_fails() {
    let mut seq = Sequencer::new();
    seq.phase = Phase::ServerDatastream;
    seq.step = Step::Check;
    seq.index = 0;
    let ev = ObservedEvent {
        interface: ServerDatastream::name().to_string(),
        path: "/integer_endpoint".to_string(),
        data: EventData::Individual(fixture_value(1)),
    };
    let ok = seq.judge(&Observation::Event(ev));
    assert!(!ok);
    assert_eq!(
        seq.advance(Outcome::Checked(ok)),
        Err(Failure::AssertionFailure(Phase::ServerDatastream, 0))
    );
}

#[test]
fn server_unset_needs_unset_marker() {
    let mut seq = Sequencer::new();
    seq.phase = Phase::ServerPropertyUnset;
    seq.step = Step::Check;
    seq.index = 1;
    let zero = ObservedEvent {
        interface: ServerProperty::name().to_string(),
        path: "/integer_endpoint".to_string(),
        data: EventData::Individual(AstarteData::Integer(0)),
    };
    assert!(!seq.judge(&Observation::Event(zero)));
    let unset = ObservedEvent {
        interface: ServerProperty::name().to_string(),
        path: "/integer_endpoint".to_string(),
        data: EventData::Unset,
    };
    assert!(seq.judge(&Observation::Event(unset)));
}

#[test]
fn wrong_server_event_fails_run() {
    let mut world = World { corrupt_event_at: Some(2), ..Default::default() };
    let mut seq = Sequencer::new();
    assert_eq!(world.run(&mut seq), Err(Failure::AssertionFailure(Phase::ServerDatastream, 0)));
}

#[test]
fn barrier_separates_each_publish() {
    let mut world = World::default();
    let mut seq = Sequencer::new();
    assert_eq!(world.run(&mut seq), Ok(()));
    let mut last_was_publish = false;
    for line in &world.log {
        let publish = line.starts_with("send") || line.starts_with("unset");
        assert!(!(publish && last_was_publish), "two publishes without a barrier");
        last_was_publish = publish;
    }
    assert_eq!(world.log.iter().filter(|l| *l == "barrier").count(), 1 + 3 * ENDPOINT_COUNT);
}

#[test]
fn publisher_waits_at_barrier_before_next_endpoint() {
    let mut seq = Sequencer::new();
    seq.phase = Phase::DeviceDatastream;
    seq.step = Step::Act;
    seq.advance(Outcome::Completed).unwrap();
    assert_eq!(seq.step, Step::Sync);
    assert_eq!(seq.index, 0);
    assert!(matches!(seq.action(), Action::WaitBarrier));
    assert_eq!(seq.advance(Outcome::Completed), Err(Failure::OutOfOrder(Phase::DeviceDatastream)));
    assert_eq!(seq.index, 0);
    seq.advance(Outcome::Synced).unwrap();
    assert_eq!(seq.step, Step::Act);
    assert_eq!(seq.index, 1);
}

#[test]
fn device_aggregate_check_retries_then_exhausts() {
    let mut seq = Sequencer::new();
    seq.phase = Phase::DeviceAggregate;
    seq.step = Step::Check;
    seq.retry = Retry::new(10);
    for _ in 0..9 {
        assert!(!seq.judge(&Observation::Object(None)));
        seq.advance(Outcome::Checked(false)).unwrap();
    }
    assert_eq!(
        seq.advance(Outcome::Checked(false)),
        Err(Failure::ExhaustedRetries(Phase::DeviceAggregate))
    );
    let good = Data::default().to_aggregate();
    assert!(seq.judge(&Observation::Object(Some(good))));
}
