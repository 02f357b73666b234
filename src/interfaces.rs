use vstd::prelude::*;

use crate::aggregate::Aggregate;
use crate::record::{aggregate_of, default_record, Data};

verus! {

/// Number of primary interfaces.
pub const INTERFACE_COUNT: usize = 6;

/// Name of the primary interface at position `i`, in sorted order.
pub open spec fn interface_name(i: int) -> Seq<char> {
    if i == 0 {
        "org.astarte-platform.rust.e2etest.DeviceAggregate"@
    } else if i == 1 {
        "org.astarte-platform.rust.e2etest.DeviceDatastream"@
    } else if i == 2 {
        "org.astarte-platform.rust.e2etest.DeviceProperty"@
    } else if i == 3 {
        "org.astarte-platform.rust.e2etest.ServerAggregate"@
    } else if i == 4 {
        "org.astarte-platform.rust.e2etest.ServerDatastream"@
    } else {
        "org.astarte-platform.rust.e2etest.ServerProperty"@
    }
}

/// Object path of the aggregate interfaces.
pub open spec fn sensor_path() -> Seq<char> {
    "/sendor_1"@
}

/// Object path of the aggregate interfaces.
fn aggregate_path() -> (r: &'static str)
    ensures
        r@ == sensor_path(),
{
    "/sendor_1"
}

/// Name of the primary interface at position `i`, in sorted order.
pub fn interface(i: usize) -> (r: &'static str)
    requires
        i < INTERFACE_COUNT,
    ensures
        r@ == interface_name(i as int),
{
    if i == 0 {
        DeviceAggregate::name()
    } else if i == 1 {
        DeviceDatastream::name()
    } else if i == 2 {
        DeviceProperty::name()
    } else if i == 3 {
        ServerAggregate::name()
    } else if i == 4 {
        ServerDatastream::name()
    } else {
        ServerProperty::name()
    }
}

/// The names of the primary interfaces, sorted.
pub fn interface_names() -> (r: Vec<String>)
    ensures
        r@.len() == INTERFACE_COUNT,
        forall|i: int| 0 <= i < INTERFACE_COUNT ==> #[trigger] r@[i]@ == interface_name(i),
{
    let mut r: Vec<String> = Vec::new();
    let mut i: usize = 0;
    while i < INTERFACE_COUNT
        invariant
            0 <= i <= INTERFACE_COUNT,
            r@.len() == i,
            forall|j: int| 0 <= j < i ==> #[trigger] r@[j]@ == interface_name(j),
        decreases INTERFACE_COUNT - i,
    {
        r.push(interface(i).to_owned());
        i = i + 1;
    }
    r
}

/// The names of the additional interfaces, added to the message hub at run time.
pub fn additional_interface_names() -> (r: Vec<String>)
    ensures
        r@.len() == 2,
        r@[0]@ == "org.astarte-platform.rust.e2etest.AdditionalDeviceDatastream"@,
        r@[1]@ == "org.astarte-platform.rust.e2etest.AdditionalServerDatastream"@,
{
    let mut r: Vec<String> = Vec::new();
    r.push(AdditionalDeviceDatastream::name().to_owned());
    r.push(AdditionalServerDatastream::name().to_owned());
    r
}

/// Data of the `DeviceAggregate` interface (sent by the device).
#[derive(Clone, Debug)]
pub struct DeviceAggregate(pub Data);

impl DeviceAggregate {
    /// Name of the interface.
    pub fn name() -> (r: &'static str)
        ensures
            r@ == "org.astarte-platform.rust.e2etest.DeviceAggregate"@,
    {
        "org.astarte-platform.rust.e2etest.DeviceAggregate"
    }

    /// Object path the aggregate is sent on.
    pub fn path() -> (r: &'static str)
        ensures
            r@ == sensor_path(),
    {
        aggregate_path()
    }

    /// The aggregate of the data, in catalog order.
    pub fn into_object(self) -> (r: Aggregate)
        ensures
            r.wf(),
            r@ == aggregate_of(self.0@),
    {
        self.0.to_aggregate()
    }
}

impl Default for DeviceAggregate {
    fn default() -> (r: DeviceAggregate)
        ensures
            r.0@ == default_record(),
    {
        DeviceAggregate(Data::default())
    }
}

/// Data of the `DeviceDatastream` interface (sent by the device).
#[derive(Clone, Debug)]
pub struct DeviceDatastream(pub Data);

impl DeviceDatastream {
    /// Name of the interface.
    pub fn name() -> (r: &'static str)
        ensures
            r@ == "org.astarte-platform.rust.e2etest.DeviceDatastream"@,
    {
        "org.astarte-platform.rust.e2etest.DeviceDatastream"
    }

    /// The aggregate of the data, in catalog order.
    pub fn into_object(self) -> (r: Aggregate)
        ensures
            r.wf(),
            r@ == aggregate_of(self.0@),
    {
        self.0.to_aggregate()
    }
}

impl Default for DeviceDatastream {
    fn default() -> (r: DeviceDatastream)
        ensures
            r.0@ == default_record(),
    {
        DeviceDatastream(Data::default())
    }
}

/// Data of the `DeviceProperty` interface (sent by the device).
#[derive(Clone, Debug)]
pub struct DeviceProperty(pub Data);

impl DeviceProperty {
    /// Name of the interface.
    pub fn name() -> (r: &'static str)
        ensures
            r@ == "org.astarte-platform.rust.e2etest.DeviceProperty"@,
    {
        "org.astarte-platform.rust.e2etest.DeviceProperty"
    }

    /// The aggregate of the data, in catalog order.
    pub fn into_object(self) -> (r: Aggregate)
        ensures
            r.wf(),
            r@ == aggregate_of(self.0@),
    {
        self.0.to_aggregate()
    }
}

impl Default for DeviceProperty {
    fn default() -> (r: DeviceProperty)
        ensures
            r.0@ == default_record(),
    {
        DeviceProperty(Data::default())
    }
}

/// Data of the `ServerAggregate` interface (sent by the server).
#[derive(Clone, Debug)]
pub struct ServerAggregate(pub Data);

impl ServerAggregate {
    /// Name of the interface.
    pub fn name() -> (r: &'static str)
        ensures
            r@ == "org.astarte-platform.rust.e2etest.ServerAggregate"@,
    {
        "org.astarte-platform.rust.e2etest.ServerAggregate"
    }

    /// Object path the aggregate is sent on.
    pub fn path() -> (r: &'static str)
        ensures
            r@ == sensor_path(),
    {
        aggregate_path()
    }

    /// The aggregate of the data, in catalog order.
    pub fn into_object(self) -> (r: Aggregate)
        ensures
            r.wf(),
            r@ == aggregate_of(self.0@),
    {
        self.0.to_aggregate()
    }
}

impl Default for ServerAggregate {
    fn default() -> (r: ServerAggregate)
        ensures
            r.0@ == default_record(),
    {
        ServerAggregate(Data::default())
    }
}

/// Data of the `ServerDatastream` interface (sent by the server).
#[derive(Clone, Debug)]
pub struct ServerDatastream(pub Data);

impl ServerDatastream {
    /// Name of the interface.
    pub fn name() -> (r: &'static str)
        ensures
            r@ == "org.astarte-platform.rust.e2etest.ServerDatastream"@,
    {
        "org.astarte-platform.rust.e2etest.ServerDatastream"
    }

    /// The aggregate of the data, in catalog order.
    pub fn into_object(self) -> (r: Aggregate)
        ensures
            r.wf(),
            r@ == aggregate_of(self.0@),
    {
        self.0.to_aggregate()
    }
}

impl Default for ServerDatastream {
    fn default() -> (r: ServerDatastream)
        ensures
            r.0@ == default_record(),
    {
        ServerDatastream(Data::default())
    }
}

/// Data of the `ServerProperty` interface (sent by the server).
#[derive(Clone, Debug)]
pub struct ServerProperty(pub Data);

impl ServerProperty {
    /// Name of the interface.
    pub fn name() -> (r: &'static str)
        ensures
            r@ == "org.astarte-platform.rust.e2etest.ServerProperty"@,
    {
        "org.astarte-platform.rust.e2etest.ServerProperty"
    }

    /// The aggregate of the data, in catalog order.
    pub fn into_object(self) -> (r: Aggregate)
        ensures
            r.wf(),
            r@ == aggregate_of(self.0@),
    {
        self.0.to_aggregate()
    }
}

impl Default for ServerProperty {
    fn default() -> (r: ServerProperty)
        ensures
            r.0@ == default_record(),
    {
        ServerProperty(Data::default())
    }
}

/// Data of the `AdditionalDeviceDatastream` interface (added at run time).
#[derive(Clone, Debug)]
pub struct AdditionalDeviceDatastream(pub Data);

impl AdditionalDeviceDatastream {
    /// Name of the interface.
    pub fn name() -> (r: &'static str)
        ensures
            r@ == "org.astarte-platform.rust.e2etest.AdditionalDeviceDatastream"@,
    {
        "org.astarte-platform.rust.e2etest.AdditionalDeviceDatastream"
    }

    /// The aggregate of the data, in catalog order.
    pub fn into_object(self) -> (r: Aggregate)
        ensures
            r.wf(),
            r@ == aggregate_of(self.0@),
    {
        self.0.to_aggregate()
    }
}

impl Default for AdditionalDeviceDatastream {
    fn default() -> (r: AdditionalDeviceDatastream)
        ensures
            r.0@ == default_record(),
    {
        AdditionalDeviceDatastream(Data::default())
    }
}

/// Data of the `AdditionalServerDatastream` interface (added at run time).
#[derive(Clone, Debug)]
pub struct AdditionalServerDatastream(pub Data);

impl AdditionalServerDatastream {
    /// Name of the interface.
    pub fn name() -> (r: &'static str)
        ensures
            r@ == "org.astarte-platform.rust.e2etest.AdditionalServerDatastream"@,
    {
        "org.astarte-platform.rust.e2etest.AdditionalServerDatastream"
    }
}

impl Default for AdditionalServerDatastream {
    fn default() -> (r: AdditionalServerDatastream)
        ensures
            r.0@ == default_record(),
    {
        AdditionalServerDatastream(Data::default())
    }
}

} // verus!
