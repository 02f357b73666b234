use vstd::prelude::*;

use crate::aggregate::Aggregate;
use crate::checks::{
    aggregates_match, carries, individual_event_matches, interfaces_match, lists_interfaces,
    object_event_matches, same_mapping, unset_event_matches, EventData, Expected, ObservedEvent,
};
use crate::interfaces::{
    sensor_path, DeviceAggregate, DeviceDatastream, DeviceProperty, ServerAggregate,
    ServerDatastream, ServerProperty,
};
use crate::record::{aggregate_of, default_record, endpoint, endpoint_name, Data, ENDPOINT_COUNT};
use crate::retry::{decide, Retry, RetryDecision};
use crate::value::{AstarteData, DataView};

verus! {

/// Attempts allowed for the interface discovery check.
pub const DISCOVERY_ATTEMPTS: usize = 20;

/// Attempts allowed for each check of the state the server sees.
pub const CHECK_ATTEMPTS: usize = 10;

/// Phases of a run, in the order they are gone through.
#[derive(PartialEq, Eq, Structural, Clone, Copy, Debug)]
pub enum Phase {
    Discovery,
    DeviceAggregate,
    DeviceDatastream,
    DeviceProperty,
    DevicePropertyUnset,
    ServerAggregate,
    ServerDatastream,
    ServerProperty,
    ServerPropertyUnset,
    Teardown,
    Done,
}

/// Step within a phase.
#[derive(PartialEq, Eq, Structural, Clone, Copy, Debug)]
pub enum Step {
    /// Publish, inject or close.
    Act,
    /// Wait at the barrier shared with the message hub.
    Sync,
    /// Check what was observed.
    Check,
}

/// What came of the last action.
#[derive(PartialEq, Eq, Structural, Clone, Copy, Debug)]
pub enum Outcome {
    /// The action was carried out.
    Completed,
    /// Both parties passed the barrier.
    Synced,
    /// The verdict of [`Sequencer::judge`] on what was observed.
    Checked(bool),
}

/// Why a run stops before its end.
#[derive(PartialEq, Eq, Structural, Clone, Copy, Debug)]
pub enum Failure {
    /// The check of this phase never passed within its budget.
    ExhaustedRetries(Phase),
    /// The notification for this endpoint position differs from the one injected.
    AssertionFailure(Phase, usize),
    /// The outcome does not answer the current step.
    OutOfOrder(Phase),
}

/// State of a run.
#[derive(PartialEq, Eq, Structural, Clone, Copy, Debug)]
pub struct Sequencer {
    pub phase: Phase,
    pub step: Step,
    /// Position in the endpoint catalog, in phases that go through it.
    pub index: usize,
    /// Attempts of the current check.
    pub retry: Retry,
}

/// Device phases that publish one endpoint at a time, each paced by the barrier.
pub open spec fn is_paced(p: Phase) -> bool {
    p == Phase::DeviceDatastream || p == Phase::DeviceProperty || p == Phase::DevicePropertyUnset
}

/// Server phases that inject one endpoint at a time.
pub open spec fn is_server_individual(p: Phase) -> bool {
    p == Phase::ServerDatastream || p == Phase::ServerProperty || p == Phase::ServerPropertyUnset
}

/// Phases in which the server pushes and the device receives.
pub open spec fn is_server(p: Phase) -> bool {
    p == Phase::ServerAggregate || is_server_individual(p)
}

/// The phase after `p`.
pub open spec fn following(p: Phase) -> Phase {
    match p {
        Phase::Discovery => Phase::DeviceAggregate,
        Phase::DeviceAggregate => Phase::DeviceDatastream,
        Phase::DeviceDatastream => Phase::DeviceProperty,
        Phase::DeviceProperty => Phase::DevicePropertyUnset,
        Phase::DevicePropertyUnset => Phase::ServerAggregate,
        Phase::ServerAggregate => Phase::ServerDatastream,
        Phase::ServerDatastream => Phase::ServerProperty,
        Phase::ServerProperty => Phase::ServerPropertyUnset,
        Phase::ServerPropertyUnset => Phase::Teardown,
        Phase::Teardown => Phase::Done,
        Phase::Done => Phase::Done,
    }
}

/// The state in which phase `p` starts.
pub open spec fn entry(p: Phase) -> Sequencer {
    Sequencer {
        phase: p,
        step: if p == Phase::Discovery {
            Step::Check
        } else {
            Step::Act
        },
        index: 0,
        retry: Retry {
            attempts: 0,
            budget: if p == Phase::Discovery {
                DISCOVERY_ATTEMPTS
            } else {
                CHECK_ATTEMPTS
            },
        },
    }
}

/// The state after a retried check of phase `s.phase` gave `ok`.
pub open spec fn after_check(s: Sequencer, ok: bool) -> Result<Sequencer, Failure> {
    match decide(s.retry.attempts as int, s.retry.budget as int, ok) {
        RetryDecision::Done => Ok(entry(following(s.phase))),
        RetryDecision::Again => Ok(
            Sequencer { retry: Retry { attempts: (s.retry.attempts + 1) as usize, ..s.retry }, ..s },
        ),
        RetryDecision::Exhausted => Err(Failure::ExhaustedRetries(s.phase)),
    }
}

/// The transition of a run from state `s` on outcome `o`.
pub open spec fn next(s: Sequencer, o: Outcome) -> Result<Sequencer, Failure> {
    if s.phase == Phase::Done {
        Err(Failure::OutOfOrder(s.phase))
    } else {
        match (s.step, o) {
            (Step::Act, Outcome::Completed) => if s.phase == Phase::Teardown {
                Ok(entry(Phase::Done))
            } else if is_server(s.phase) {
                Ok(Sequencer { step: Step::Check, ..s })
            } else {
                Ok(Sequencer { step: Step::Sync, ..s })
            },
            (Step::Sync, Outcome::Synced) => if is_paced(s.phase) && s.index + 1 < ENDPOINT_COUNT {
                Ok(Sequencer { step: Step::Act, index: (s.index + 1) as usize, ..s })
            } else {
                Ok(Sequencer { step: Step::Check, ..s })
            },
            (Step::Check, Outcome::Checked(ok)) => if is_server(s.phase) {
                if !ok {
                    Err(Failure::AssertionFailure(s.phase, s.index))
                } else if is_server_individual(s.phase) && s.index + 1 < ENDPOINT_COUNT {
                    Ok(Sequencer { step: Step::Act, index: (s.index + 1) as usize, ..s })
                } else {
                    Ok(entry(following(s.phase)))
                }
            } else {
                after_check(s, ok)
            },
            _ => Err(Failure::OutOfOrder(s.phase)),
        }
    }
}

/// The endpoint path of catalog position `i`: a slash and the endpoint name.
pub open spec fn endpoint_path(i: int) -> Seq<char> {
    seq!['/'] + endpoint_name(i)
}

/// The aggregate of the fixture.
pub open spec fn fixture_aggregate() -> Seq<(Seq<char>, DataView)> {
    aggregate_of(default_record())
}

/// The interface that phase `p` exchanges data on.
pub open spec fn phase_interface(p: Phase) -> Seq<char> {
    match p {
        Phase::DeviceAggregate => "org.astarte-platform.rust.e2etest.DeviceAggregate"@,
        Phase::DeviceDatastream => "org.astarte-platform.rust.e2etest.DeviceDatastream"@,
        Phase::DeviceProperty => "org.astarte-platform.rust.e2etest.DeviceProperty"@,
        Phase::DevicePropertyUnset => "org.astarte-platform.rust.e2etest.DeviceProperty"@,
        Phase::ServerAggregate => "org.astarte-platform.rust.e2etest.ServerAggregate"@,
        Phase::ServerDatastream => "org.astarte-platform.rust.e2etest.ServerDatastream"@,
        Phase::ServerProperty => "org.astarte-platform.rust.e2etest.ServerProperty"@,
        Phase::ServerPropertyUnset => "org.astarte-platform.rust.e2etest.ServerProperty"@,
        _ => Seq::empty(),
    }
}

/// Well-formed states: the index stays in the catalog, a check has attempts
/// left, and each phase uses only its own steps.
pub open spec fn wf(s: Sequencer) -> bool {
    &&& s.index < ENDPOINT_COUNT
    &&& s.retry.attempts < s.retry.budget
    &&& s.retry.budget <= DISCOVERY_ATTEMPTS
    &&& (s.phase == Phase::Discovery ==> s.step == Step::Check)
    &&& (is_server(s.phase) ==> s.step != Step::Sync)
    &&& (s.phase == Phase::Teardown || s.phase == Phase::Done ==> s.step == Step::Act)
    &&& (!is_paced(s.phase) && !is_server_individual(s.phase) ==> s.index == 0)
}

/// Every step from a well-formed state leads to a well-formed state.
pub proof fn lemma_next_wf(s: Sequencer, o: Outcome)
    requires
        wf(s),
    ensures
        next(s, o) matches Ok(t) ==> wf(t),
{
}

/// The state in which phase `p` starts.
fn enter(p: Phase) -> (r: Sequencer)
    ensures
        r == entry(p),
{
    let discovery = p == Phase::Discovery;
    Sequencer {
        phase: p,
        step: if discovery {
            Step::Check
        } else {
            Step::Act
        },
        index: 0,
        retry: Retry::new(
            if discovery {
                DISCOVERY_ATTEMPTS
            } else {
                CHECK_ATTEMPTS
            },
        ),
    }
}

/// The phase after `p`.
fn following_phase(p: Phase) -> (r: Phase)
    ensures
        r == following(p),
{
    match p {
        Phase::Discovery => Phase::DeviceAggregate,
        Phase::DeviceAggregate => Phase::DeviceDatastream,
        Phase::DeviceDatastream => Phase::DeviceProperty,
        Phase::DeviceProperty => Phase::DevicePropertyUnset,
        Phase::DevicePropertyUnset => Phase::ServerAggregate,
        Phase::ServerAggregate => Phase::ServerDatastream,
        Phase::ServerDatastream => Phase::ServerProperty,
        Phase::ServerProperty => Phase::ServerPropertyUnset,
        Phase::ServerPropertyUnset => Phase::Teardown,
        Phase::Teardown => Phase::Done,
        Phase::Done => Phase::Done,
    }
}

impl Sequencer {
    /// The state a run starts in: checking the interface catalog.
    pub fn new() -> (r: Sequencer)
        ensures
            r == entry(Phase::Discovery),
            wf(r),
    {
        enter(Phase::Discovery)
    }

    /// Whether the run is over.
    pub fn is_done(&self) -> (r: bool)
        ensures
            r == (self.phase == Phase::Done),
    {
        self.phase == Phase::Done
    }

    /// Moves the run on by outcome `o`; on a failure the state is left as it was.
    pub fn advance(&mut self, o: Outcome) -> (r: Result<(), Failure>)
        requires
            wf(*old(self)),
        ensures
            wf(*final(self)),
            match next(*old(self), o) {
                Ok(t) => r is Ok && *final(self) == t,
                Err(f) => r == Err::<(), Failure>(f) && *final(self) == *old(self),
            },
    {
        proof {
            lemma_next_wf(*self, o);
        }
        let p = self.phase;
        let paced = p == Phase::DeviceDatastream || p == Phase::DeviceProperty || p
            == Phase::DevicePropertyUnset;
        let server_individual = p == Phase::ServerDatastream || p == Phase::ServerProperty || p
            == Phase::ServerPropertyUnset;
        let server = p == Phase::ServerAggregate || server_individual;
        if p == Phase::Done {
            return Err(Failure::OutOfOrder(p));
        }
        match (self.step, o) {
            (Step::Act, Outcome::Completed) => {
                if p == Phase::Teardown {
                    *self = enter(Phase::Done);
                } else if server {
                    self.step = Step::Check;
                } else {
                    self.step = Step::Sync;
                }
                Ok(())
            },
            (Step::Sync, Outcome::Synced) => {
                if paced && self.index + 1 < ENDPOINT_COUNT {
                    self.step = Step::Act;
                    self.index = self.index + 1;
                } else {
                    self.step = Step::Check;
                }
                Ok(())
            },
            (Step::Check, Outcome::Checked(ok)) => {
                if server {
                    if !ok {
                        Err(Failure::AssertionFailure(p, self.index))
                    } else if server_individual && self.index + 1 < ENDPOINT_COUNT {
                        self.step = Step::Act;
                        self.index = self.index + 1;
                        Ok(())
                    } else {
                        *self = enter(following_phase(p));
                        Ok(())
                    }
                } else {
                    let mut retry = self.retry;
                    match retry.record(ok) {
                        RetryDecision::Done => {
                            *self = enter(following_phase(p));
                            Ok(())
                        },
                        RetryDecision::Again => {
                            self.retry = retry;
                            Ok(())
                        },
                        RetryDecision::Exhausted => Err(Failure::ExhaustedRetries(p)),
                    }
                }
            },
            _ => Err(Failure::OutOfOrder(p)),
        }
    }
}

/// Phases are gone through strictly in order: a step either stays in its
/// phase or enters the next one at its start; it never skips or goes back.
pub proof fn lemma_phases_in_order(s: Sequencer, o: Outcome)
    requires
        wf(s),
    ensures
        next(s, o) matches Ok(t) ==> (t.phase == s.phase || t == entry(following(s.phase))),
{
}

/// The discovery check is retried while it fails and attempts are left, moves
/// the run on as soon as it passes, and ends the run once its budget is spent.
pub proof fn lemma_discovery_retries(s: Sequencer)
    requires
        wf(s),
        s.phase == Phase::Discovery,
    ensures
        next(s, Outcome::Checked(true)) == Ok::<Sequencer, Failure>(entry(Phase::DeviceAggregate)),
        s.retry.attempts + 1 < s.retry.budget ==> next(s, Outcome::Checked(false)) == Ok::<
            Sequencer,
            Failure,
        >(Sequencer { retry: Retry { attempts: (s.retry.attempts + 1) as usize, ..s.retry }, ..s }),
        s.retry.attempts + 1 == s.retry.budget ==> next(s, Outcome::Checked(false)) == Err::<
            Sequencer,
            Failure,
        >(Failure::ExhaustedRetries(Phase::Discovery)),
        entry(Phase::Discovery).retry.budget == DISCOVERY_ATTEMPTS,
{
}

/// In the paced device phases the publisher moves from one endpoint to the
/// next only through the barrier: after publishing endpoint `i` the run waits
/// at the barrier for `i`, and position `i + 1` is reached from that wait alone,
/// when both parties have passed it.
pub proof fn lemma_barrier_paces_publisher(s: Sequencer, o: Outcome)
    requires
        wf(s),
        is_paced(s.phase),
        next(s, o) is Ok,
    ensures
        s.step == Step::Act ==> next(s, o) == Ok::<Sequencer, Failure>(
            Sequencer { step: Step::Sync, ..s },
        ),
        next(s, o) matches Ok(t) ==> (t.phase == s.phase && t.index > s.index ==> s.step
            == Step::Sync && o == Outcome::Synced && t.index == s.index + 1 && t.step == Step::Act),
{
}

/// A paced device phase starts at the first endpoint and goes through every
/// position of the catalog, one at a time, before its check: the wait at the
/// barrier for endpoint `i` leads to publishing `i + 1`, or to the check after
/// the last endpoint.
pub proof fn lemma_publishing_covers_catalog(s: Sequencer)
    requires
        wf(s),
        is_paced(s.phase),
        s.step == Step::Sync,
    ensures
        entry(s.phase).index == 0 && entry(s.phase).step == Step::Act,
        s.index + 1 < ENDPOINT_COUNT ==> next(s, Outcome::Synced) == Ok::<Sequencer, Failure>(
            Sequencer { step: Step::Act, index: (s.index + 1) as usize, ..s },
        ),
        s.index + 1 >= ENDPOINT_COUNT ==> s.index == ENDPOINT_COUNT - 1 && next(s, Outcome::Synced)
            == Ok::<Sequencer, Failure>(Sequencer { step: Step::Check, ..s }),
{
}

/// In the server phases each injection is followed by the check of exactly one
/// notification for the same endpoint, and the next endpoint is injected only
/// after that check passed; a failed check ends the run.
pub proof fn lemma_server_events_in_order(s: Sequencer, o: Outcome)
    requires
        wf(s),
        is_server_individual(s.phase),
    ensures
        s.step == Step::Act && o == Outcome::Completed ==> next(s, o) == Ok::<Sequencer, Failure>(
            Sequencer { step: Step::Check, ..s },
        ),
        s.step == Step::Check && o == Outcome::Checked(false) ==> next(s, o) == Err::<Sequencer, Failure>(
            Failure::AssertionFailure(s.phase, s.index),
        ),
        next(s, o) matches Ok(t) ==> (t.phase == s.phase && t.index != s.index ==> s.step
            == Step::Check && o == Outcome::Checked(true) && t.index == s.index + 1),
        next(s, o) matches Ok(t) ==> (t.phase != s.phase ==> s.index == ENDPOINT_COUNT - 1),
{
}

/// What the runner is asked to do next.
#[derive(Clone, Debug)]
pub enum Action {
    /// Ask the inspection API for the message hub's interfaces.
    ListInterfaces,
    /// Publish an aggregate from the device.
    SendObject { interface: String, path: String, data: Aggregate },
    /// Publish one value from the device.
    SendIndividual { interface: String, path: String, value: AstarteData },
    /// Unset one property from the device.
    Unset { interface: String, path: String },
    /// Wait at the barrier shared with the message hub.
    WaitBarrier,
    /// Read the aggregate stored by the server at a path.
    GetAggregate { interface: String, path: String },
    /// Read the latest individual values stored by the server, by endpoint name.
    GetIndividualValues { interface: String },
    /// Read the properties stored by the server, by endpoint name.
    GetPropertySet { interface: String },
    /// Have the server push an aggregate.
    InjectObject { interface: String, path: String, data: Aggregate },
    /// Have the server push one value.
    InjectIndividual { interface: String, path: String, value: AstarteData },
    /// Have the server unset one property.
    InjectUnset { interface: String, path: String },
    /// Wait for the next notification received by the device.
    Receive,
    /// Close the device connection, then stop the message hub.
    Close,
    /// Nothing is left to do.
    Finished,
}

/// The mathematical value of an [`Action`].
pub enum ActionView {
    ListInterfaces,
    SendObject(Seq<char>, Seq<char>, Seq<(Seq<char>, DataView)>),
    SendIndividual(Seq<char>, Seq<char>, DataView),
    Unset(Seq<char>, Seq<char>),
    WaitBarrier,
    GetAggregate(Seq<char>, Seq<char>),
    GetIndividualValues(Seq<char>),
    GetPropertySet(Seq<char>),
    InjectObject(Seq<char>, Seq<char>, Seq<(Seq<char>, DataView)>),
    InjectIndividual(Seq<char>, Seq<char>, DataView),
    InjectUnset(Seq<char>, Seq<char>),
    Receive,
    Close,
    Finished,
}

impl View for Action {
    type V = ActionView;

    open spec fn view(&self) -> ActionView {
        match self {
            Action::ListInterfaces => ActionView::ListInterfaces,
            Action::SendObject { interface, path, data } => ActionView::SendObject(interface@, path@, data@),
            Action::SendIndividual { interface, path, value } => ActionView::SendIndividual(
                interface@,
                path@,
                value@,
            ),
            Action::Unset { interface, path } => ActionView::Unset(interface@, path@),
            Action::WaitBarrier => ActionView::WaitBarrier,
            Action::GetAggregate { interface, path } => ActionView::GetAggregate(interface@, path@),
            Action::GetIndividualValues { interface } => ActionView::GetIndividualValues(interface@),
            Action::GetPropertySet { interface } => ActionView::GetPropertySet(interface@),
            Action::InjectObject { interface, path, data } => ActionView::InjectObject(
                interface@,
                path@,
                data@,
            ),
            Action::InjectIndividual { interface, path, value } => ActionView::InjectIndividual(
                interface@,
                path@,
                value@,
            ),
            Action::InjectUnset { interface, path } => ActionView::InjectUnset(interface@, path@),
            Action::Receive => ActionView::Receive,
            Action::Close => ActionView::Close,
            Action::Finished => ActionView::Finished,
        }
    }
}

/// The action that state `s` asks for.
pub open spec fn planned(s: Sequencer) -> ActionView {
    let iface = phase_interface(s.phase);
    let path = endpoint_path(s.index as int);
    let value = default_record()[s.index as int];
    match (s.phase, s.step) {
        (Phase::Discovery, _) => ActionView::ListInterfaces,
        (Phase::Teardown, _) => ActionView::Close,
        (Phase::Done, _) => ActionView::Finished,
        (_, Step::Sync) => ActionView::WaitBarrier,
        (Phase::DeviceAggregate, Step::Act) => ActionView::SendObject(iface, sensor_path(), fixture_aggregate()),
        (Phase::DeviceAggregate, Step::Check) => ActionView::GetAggregate(iface, sensor_path()),
        (Phase::DevicePropertyUnset, Step::Act) => ActionView::Unset(iface, path),
        (Phase::DevicePropertyUnset, Step::Check) => ActionView::GetPropertySet(iface),
        (Phase::DeviceDatastream, Step::Act) => ActionView::SendIndividual(iface, path, value),
        (Phase::DeviceProperty, Step::Act) => ActionView::SendIndividual(iface, path, value),
        (Phase::DeviceDatastream, Step::Check) => ActionView::GetIndividualValues(iface),
        (Phase::DeviceProperty, Step::Check) => ActionView::GetIndividualValues(iface),
        (Phase::ServerAggregate, Step::Act) => ActionView::InjectObject(iface, sensor_path(), fixture_aggregate()),
        (Phase::ServerPropertyUnset, Step::Act) => ActionView::InjectUnset(iface, path),
        (_, Step::Act) => ActionView::InjectIndividual(iface, path, value),
        (_, Step::Check) => ActionView::Receive,
    }
}

/// What the runner observed, for the check of the current phase.
#[derive(Clone, Debug)]
pub enum Observation {
    /// The interfaces the message hub reports.
    Interfaces(Vec<String>),
    /// The aggregate the server stored at the path, if any.
    Object(Option<Aggregate>),
    /// The values the server stored, by endpoint name.
    Values(Aggregate),
    /// The next notification received by the device.
    Event(ObservedEvent),
}

/// Whether `obs` passes the check of state `s`.
pub open spec fn passes(s: Sequencer, obs: Observation) -> bool {
    let iface = phase_interface(s.phase);
    let path = endpoint_path(s.index as int);
    match (s.phase, obs) {
        (Phase::Discovery, Observation::Interfaces(v)) => lists_interfaces(v.deep_view()),
        (Phase::DeviceAggregate, Observation::Object(Some(a))) => a.wf() && same_mapping(
            a@,
            fixture_aggregate(),
        ),
        (Phase::DeviceDatastream, Observation::Values(a)) => a.wf() && same_mapping(a@, fixture_aggregate()),
        (Phase::DeviceProperty, Observation::Values(a)) => a.wf() && same_mapping(a@, fixture_aggregate()),
        (Phase::DevicePropertyUnset, Observation::Values(a)) => a@.len() == 0,
        (Phase::ServerAggregate, Observation::Event(ev)) => ev.interface@ == iface && ev.path@
            == sensor_path() && carries(ev.data, Expected::Object(fixture_aggregate())),
        (Phase::ServerDatastream, Observation::Event(ev)) => ev.interface@ == iface && ev.path@ == path
            && carries(ev.data, Expected::Individual(default_record()[s.index as int])),
        (Phase::ServerProperty, Observation::Event(ev)) => ev.interface@ == iface && ev.path@ == path
            && carries(ev.data, Expected::Individual(default_record()[s.index as int])),
        (Phase::ServerPropertyUnset, Observation::Event(ev)) => ev.interface@ == iface && ev.path@ == path
            && carries(ev.data, Expected::Unset),
        _ => false,
    }
}

/// The interface that phase `p` exchanges data on.
fn interface_of(p: Phase) -> (r: String)
    ensures
        r@ == phase_interface(p),
{
    match p {
        Phase::DeviceAggregate => DeviceAggregate::name().to_owned(),
        Phase::DeviceDatastream => DeviceDatastream::name().to_owned(),
        Phase::DeviceProperty => DeviceProperty::name().to_owned(),
        Phase::DevicePropertyUnset => DeviceProperty::name().to_owned(),
        Phase::ServerAggregate => ServerAggregate::name().to_owned(),
        Phase::ServerDatastream => ServerDatastream::name().to_owned(),
        Phase::ServerProperty => ServerProperty::name().to_owned(),
        Phase::ServerPropertyUnset => ServerProperty::name().to_owned(),
        _ => String::new(),
    }
}

/// The path of endpoint `i`: a slash and the endpoint name.
pub fn path_of(i: usize) -> (r: String)
    requires
        i < ENDPOINT_COUNT,
    ensures
        r@ == endpoint_path(i as int),
{
    let mut p = "/".to_owned();
    p.append(endpoint(i));
    proof {
        reveal_strlit("/");
        assert(p@ =~= endpoint_path(i as int));
    }
    p
}

/// The fixture's value for endpoint `i`.
pub fn fixture_value(i: usize) -> (r: AstarteData)
    requires
        i < ENDPOINT_COUNT,
    ensures
        r@ == default_record()[i as int],
{
    let agg = Data::default().to_aggregate();
    assert(agg@.len() == ENDPOINT_COUNT);
    assert(agg.entries@.len() == agg@.len());
    assert(agg@[i as int].1 == agg.entries@[i as int].value@);
    agg.entries[i].value.duplicate()
}

impl Sequencer {
    /// The action the current state asks for.
    pub fn action(&self) -> (r: Action)
        requires
            wf(*self),
        ensures
            r@ == planned(*self),
    {
        let p = self.phase;
        let i = self.index;
        match (p, self.step) {
            (Phase::Discovery, _) => Action::ListInterfaces,
            (Phase::Teardown, _) => Action::Close,
            (Phase::Done, _) => Action::Finished,
            (_, Step::Sync) => Action::WaitBarrier,
            (Phase::DeviceAggregate, Step::Act) => Action::SendObject {
                interface: interface_of(p),
                path: DeviceAggregate::path().to_owned(),
                data: Data::default().to_aggregate(),
            },
            (Phase::DeviceAggregate, Step::Check) => Action::GetAggregate {
                interface: interface_of(p),
                path: DeviceAggregate::path().to_owned(),
            },
            (Phase::DevicePropertyUnset, Step::Act) => Action::Unset { interface: interface_of(p), path: path_of(i) },
            (Phase::DevicePropertyUnset, Step::Check) => Action::GetPropertySet { interface: interface_of(p) },
            (Phase::DeviceDatastream, Step::Act) => Action::SendIndividual {
                interface: interface_of(p),
                path: path_of(i),
                value: fixture_value(i),
            },
            (Phase::DeviceProperty, Step::Act) => Action::SendIndividual {
                interface: interface_of(p),
                path: path_of(i),
                value: fixture_value(i),
            },
            (Phase::DeviceDatastream, Step::Check) => Action::GetIndividualValues { interface: interface_of(p) },
            (Phase::DeviceProperty, Step::Check) => Action::GetIndividualValues { interface: interface_of(p) },
            (Phase::ServerAggregate, Step::Act) => Action::InjectObject {
                interface: interface_of(p),
                path: ServerAggregate::path().to_owned(),
                data: Data::default().to_aggregate(),
            },
            (Phase::ServerPropertyUnset, Step::Act) => Action::InjectUnset { interface: interface_of(p), path: path_of(i) },
            (_, Step::Act) => Action::InjectIndividual {
                interface: interface_of(p),
                path: path_of(i),
                value: fixture_value(i),
            },
            (_, Step::Check) => Action::Receive,
        }
    }

    /// Whether `obs` passes the check of the current state.
    pub fn judge(&self, obs: &Observation) -> (r: bool)
        requires
            wf(*self),
        ensures
            r == passes(*self, *obs),
    {
        let p = self.phase;
        let i = self.index;
        match (p, obs) {
            (Phase::Discovery, Observation::Interfaces(v)) => interfaces_match(v),
            (Phase::DeviceAggregate, Observation::Object(Some(a))) => a.wf_check() && aggregates_match(
                a,
                &Data::default().to_aggregate(),
            ),
            (Phase::DeviceDatastream, Observation::Values(a)) => a.wf_check() && aggregates_match(
                a,
                &Data::default().to_aggregate(),
            ),
            (Phase::DeviceProperty, Observation::Values(a)) => a.wf_check() && aggregates_match(
                a,
                &Data::default().to_aggregate(),
            ),
            (Phase::DevicePropertyUnset, Observation::Values(a)) => a.is_empty(),
            (Phase::ServerAggregate, Observation::Event(ev)) => object_event_matches(
                ev,
                &interface_of(p),
                &ServerAggregate::path().to_owned(),
                &Data::default().to_aggregate(),
            ),
            (Phase::ServerDatastream, Observation::Event(ev)) => individual_event_matches(
                ev,
                &interface_of(p),
                &path_of(i),
                &fixture_value(i),
            ),
            (Phase::ServerProperty, Observation::Event(ev)) => individual_event_matches(
                ev,
                &interface_of(p),
                &path_of(i),
                &fixture_value(i),
            ),
            (Phase::ServerPropertyUnset, Observation::Event(ev)) => unset_event_matches(
                ev,
                &interface_of(p),
                &path_of(i),
            ),
            _ => false,
        }
    }
}

} // verus!
