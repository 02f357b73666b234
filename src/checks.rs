use vstd::prelude::*;

use crate::aggregate::{has_key, value_of, Aggregate};
use crate::interfaces::{interface, interface_name, INTERFACE_COUNT};
use crate::value::{AstarteData, DataView};

verus! {

/// Whether `k` names one of the primary interfaces.
pub open spec fn is_interface_name(k: Seq<char>) -> bool {
    exists|i: int| 0 <= i < INTERFACE_COUNT && #[trigger] interface_name(i) == k
}

/// `observed` lists the primary interfaces, each once, in any order: it has
/// their number of names, holds each of them, and nothing else.
pub open spec fn lists_interfaces(observed: Seq<Seq<char>>) -> bool {
    &&& observed.len() == INTERFACE_COUNT
    &&& forall|i: int| 0 <= i < INTERFACE_COUNT ==> #[trigger] observed.contains(interface_name(i))
    &&& forall|j: int| 0 <= j < observed.len() ==> is_interface_name(#[trigger] observed[j])
}

/// Whether `k` occurs in `v`.
fn contains_name(v: &Vec<String>, k: &String) -> (r: bool)
    ensures
        r == v.deep_view().contains(k@),
{
    let mut j: usize = 0;
    while j < v.len()
        invariant
            0 <= j <= v.len(),
            forall|m: int| 0 <= m < j ==> v@[m]@ != k@,
        decreases v.len() - j,
    {
        if v[j] == *k {
            assert(v.deep_view()[j as int] == k@);
            return true;
        }
        j = j + 1;
    }
    assert forall|m: int| 0 <= m < v.deep_view().len() implies v.deep_view()[m] != k@ by {
        assert(v.deep_view()[m] == v@[m]@);
    }
    false
}

/// Whether `k` names one of the primary interfaces.
fn is_interface(k: &String) -> (r: bool)
    ensures
        r == is_interface_name(k@),
{
    let mut i: usize = 0;
    while i < INTERFACE_COUNT
        invariant
            0 <= i <= INTERFACE_COUNT,
            forall|j: int| 0 <= j < i ==> interface_name(j) != k@,
        decreases INTERFACE_COUNT - i,
    {
        if interface(i).to_owned() == *k {
            return true;
        }
        i = i + 1;
    }
    false
}

/// Whether the catalog reported by the message hub is the expected one.
pub fn interfaces_match(observed: &Vec<String>) -> (r: bool)
    ensures
        r == lists_interfaces(observed.deep_view()),
{
    let ghost o = observed.deep_view();
    if observed.len() != INTERFACE_COUNT {
        return false;
    }
    let mut i: usize = 0;
    while i < INTERFACE_COUNT
        invariant
            0 <= i <= INTERFACE_COUNT,
            o == observed.deep_view(),
            forall|j: int| 0 <= j < i ==> #[trigger] o.contains(interface_name(j)),
        decreases INTERFACE_COUNT - i,
    {
        if !contains_name(observed, &interface(i).to_owned()) {
            return false;
        }
        i = i + 1;
    }
    let mut j: usize = 0;
    while j < observed.len()
        invariant
            0 <= j <= observed.len(),
            o == observed.deep_view(),
            o.len() == observed.len(),
            forall|m: int| 0 <= m < j ==> is_interface_name(#[trigger] o[m]),
        decreases observed.len() - j,
    {
        assert(o[j as int] == observed@[j as int]@);
        if !is_interface(&observed[j]) {
            return false;
        }
        j = j + 1;
    }
    true
}

/// `a` and `b` map the same names to the same values, whatever the order.
pub open spec fn same_mapping(a: Seq<(Seq<char>, DataView)>, b: Seq<(Seq<char>, DataView)>) -> bool {
    &&& a.len() == b.len()
    &&& forall|i: int|
        0 <= i < a.len() ==> has_key(b, #[trigger] a[i].0) && value_of(b, a[i].0) == a[i].1
}

/// Whether two aggregates hold the same values under the same names.
pub fn aggregates_match(a: &Aggregate, b: &Aggregate) -> (r: bool)
    requires
        a.wf(),
        b.wf(),
    ensures
        r == same_mapping(a@, b@),
{
    if a.len() != b.len() {
        return false;
    }
    let mut i: usize = 0;
    while i < a.entries.len()
        invariant
            b.wf(),
            a@.len() == b@.len(),
            0 <= i <= a@.len(),
            forall|j: int|
                0 <= j < i ==> has_key(b@, #[trigger] a@[j].0) && value_of(b@, a@[j].0) == a@[j].1,
        decreases a@.len() - i,
    {
        let ghost k = a@[i as int].0;
        assert(a.entries@[i as int].key@ == k);
        match b.get(&a.entries[i].key) {
            Some(v) => {
                if !v.equals(&a.entries[i].value) {
                    return false;
                }
            },
            None => {
                return false;
            },
        }
        i = i + 1;
    }
    true
}

/// Payload of a notification received by the device.
#[derive(Clone, Debug)]
pub enum EventData {
    /// A whole aggregate object.
    Object(Aggregate),
    /// One value of an individual endpoint.
    Individual(AstarteData),
    /// A property was unset.
    Unset,
}

/// A notification received by the device: interface name, path and payload.
#[derive(Clone, Debug)]
pub struct ObservedEvent {
    pub interface: String,
    pub path: String,
    pub data: EventData,
}

/// The payload that a device-side notification is expected to carry.
pub enum Expected {
    Object(Seq<(Seq<char>, DataView)>),
    Individual(DataView),
    Unset,
}

/// `data` carries the expected payload: an aggregate with the same mapping,
/// the same individual value, or the unset marker.
pub open spec fn carries(data: EventData, expected: Expected) -> bool {
    match (data, expected) {
        (EventData::Object(a), Expected::Object(e)) => a.wf() && same_mapping(a@, e),
        (EventData::Individual(v), Expected::Individual(e)) => v@ == e,
        (EventData::Unset, Expected::Unset) => true,
        _ => false,
    }
}

/// Whether a notification came on `interface` and `path` with an object equal to `expected`.
pub fn object_event_matches(ev: &ObservedEvent, interface: &String, path: &String, expected: &Aggregate) -> (r: bool)
    requires
        expected.wf(),
    ensures
        r == (ev.interface@ == interface@ && ev.path@ == path@ && carries(
            ev.data,
            Expected::Object(expected@),
        )),
{
    if ev.interface != *interface || ev.path != *path {
        return false;
    }
    match &ev.data {
        EventData::Object(a) => {
            if !a.wf_check() {
                return false;
            }
            aggregates_match(a, expected)
        },
        _ => false,
    }
}

/// Whether a notification came on `interface` and `path` with the individual value `expected`.
pub fn individual_event_matches(
    ev: &ObservedEvent,
    interface: &String,
    path: &String,
    expected: &AstarteData,
) -> (r: bool)
    ensures
        r == (ev.interface@ == interface@ && ev.path@ == path@ && carries(
            ev.data,
            Expected::Individual(expected@),
        )),
{
    if ev.interface != *interface || ev.path != *path {
        return false;
    }
    match &ev.data {
        EventData::Individual(v) => v.equals(expected),
        _ => false,
    }
}

/// Whether a notification came on `interface` and `path` with the unset marker.
pub fn unset_event_matches(ev: &ObservedEvent, interface: &String, path: &String) -> (r: bool)
    ensures
        r == (ev.interface@ == interface@ && ev.path@ == path@ && carries(ev.data, Expected::Unset)),
{
    if ev.interface != *interface || ev.path != *path {
        return false;
    }
    match &ev.data {
        EventData::Unset => true,
        _ => false,
    }
}

} // verus!
