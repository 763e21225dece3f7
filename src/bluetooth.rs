//! Bluetooth-presence reader: decides from the objects that the Bluetooth
//! service manages whether any device is connected.
use vstd::prelude::*;
use crate::text::text_equals;

verus! {

/// Interface that Bluetooth device objects implement.
pub const DEVICE_INTERFACE: &'static str = "org.bluez.Device1";

/// Property of a device that tells whether it is connected.
pub const CONNECTED_PROPERTY: &'static str = "Connected";

/// One property of an interface; `value` is `None` where it is not a boolean.
#[derive(Clone, Debug)]
pub struct BusProperty {
    pub name: String,
    pub value: Option<bool>,
}

/// One interface of a managed object, with its properties.
#[derive(Clone, Debug)]
pub struct BusInterface {
    pub name: String,
    pub properties: Vec<BusProperty>,
}

/// One object that the service manages, with its interfaces.
#[derive(Clone, Debug)]
pub struct ManagedObject {
    pub interfaces: Vec<BusInterface>,
}

/// The interface reports a connected device.
pub open spec fn interface_connected(i: BusInterface) -> bool {
    &&& i.name@ == DEVICE_INTERFACE@
    &&& exists|j: int|
        0 <= j < i.properties@.len() && (#[trigger] i.properties@[j]).name@ == CONNECTED_PROPERTY@
            && i.properties@[j].value == Some(true)
}

/// The object implements the device interface and is connected.
pub open spec fn object_connected(o: ManagedObject) -> bool {
    exists|j: int| 0 <= j < o.interfaces@.len() && interface_connected(#[trigger] o.interfaces@[j])
}

/// Some managed object is a connected device.
pub open spec fn any_connected(objs: Seq<ManagedObject>) -> bool {
    exists|j: int| 0 <= j < objs.len() && object_connected(#[trigger] objs[j])
}

fn interface_reports_connected(i: &BusInterface) -> (r: bool)
    ensures
        r == interface_connected(*i),
{
    if !text_equals(i.name.as_str(), DEVICE_INTERFACE) {
        return false;
    }
    let mut k: usize = 0;
    while k < i.properties.len()
        invariant
            k <= i.properties.len(),
            i.name@ == DEVICE_INTERFACE@,
            forall|j: int|
                0 <= j < k ==> !((#[trigger] i.properties@[j]).name@ == CONNECTED_PROPERTY@
                    && i.properties@[j].value == Some(true)),
        decreases i.properties.len() - k,
    {
        let p = &i.properties[k];
        if text_equals(p.name.as_str(), CONNECTED_PROPERTY) && p.value == Some(true) {
            return true;
        }
        k = k + 1;
    }
    false
}

fn object_reports_connected(o: &ManagedObject) -> (r: bool)
    ensures
        r == object_connected(*o),
{
    let mut k: usize = 0;
    while k < o.interfaces.len()
        invariant
            k <= o.interfaces.len(),
            forall|j: int| 0 <= j < k ==> !interface_connected(#[trigger] o.interfaces@[j]),
        decreases o.interfaces.len() - k,
    {
        if interface_reports_connected(&o.interfaces[k]) {
            return true;
        }
        k = k + 1;
    }
    false
}

/// Whether any managed object is a device whose `Connected` property is true.
pub fn any_device_connected(objects: &Vec<ManagedObject>) -> (r: bool)
    ensures
        r == any_connected(objects@),
{
    let mut k: usize = 0;
    while k < objects.len()
        invariant
            k <= objects.len(),
            forall|j: int| 0 <= j < k ==> !object_connected(#[trigger] objects@[j]),
        decreases objects.len() - k,
    {
        if object_reports_connected(&objects[k]) {
            return true;
        }
        k = k + 1;
    }
    false
}

} // verus!
