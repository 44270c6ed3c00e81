//! The interface resolver: matches a user-supplied selector string to one
//! available device descriptor, preserving device-list order.

use vstd::prelude::*;

use crate::text::{contains_seq, contains_str, str_eq};

verus! {

/// A device as the enumeration collaborator reports it: read-only, refreshed
/// per resolve call, never cached or mutated by the core.
#[derive(Clone, Debug)]
pub struct DeviceDescriptor {
    pub name: String,
    pub desc: Option<String>,
    pub addresses: Vec<String>,
}

/// The mathematical value of a device descriptor.
pub struct DeviceModel {
    pub name: Seq<char>,
    pub desc: Option<Seq<char>>,
    pub addresses: Seq<Seq<char>>,
}

impl View for DeviceDescriptor {
    type V = DeviceModel;

    open spec fn view(&self) -> DeviceModel {
        DeviceModel {
            name: self.name@,
            desc: match self.desc {
                Some(d) => Some(d@),
                None => None,
            },
            addresses: self.addresses.deep_view(),
        }
    }
}

impl DeepView for DeviceDescriptor {
    type V = DeviceModel;

    open spec fn deep_view(&self) -> DeviceModel {
        self.view()
    }
}

/// Whether a device matches the selector: exact name equality, the selector a
/// substring of the device name, or the selector a substring of the device
/// description.
pub open spec fn spec_device_matches(dev: DeviceModel, selector: Seq<char>) -> bool {
    dev.name == selector || contains_seq(dev.name, selector) || (dev.desc matches Some(d)
        && contains_seq(d, selector))
}

/// Whether one device matches the selector.
pub fn device_matches(dev: &DeviceDescriptor, selector: &str) -> (r: bool)
    ensures
        r == spec_device_matches(dev@, selector@),
{
    if str_eq(dev.name.as_str(), selector) {
        return true;
    }
    if contains_str(dev.name.as_str(), selector) {
        return true;
    }
    match &dev.desc {
        Some(d) => contains_str(d.as_str(), selector),
        None => false,
    }
}

/// Resolves the selector to the first matching device in list order, if any.
/// No match means no session is created.
pub fn resolve(selector: &str, devices: &Vec<DeviceDescriptor>) -> (r: Option<usize>)
    ensures
        match r {
            Some(i) => i < devices@.len() && spec_device_matches(devices@[i as int]@, selector@)
                && (forall|j: int|
                0 <= j < i ==> !spec_device_matches(devices@[j]@, selector@)),
            None => forall|j: int|
                0 <= j < devices@.len() ==> !spec_device_matches(devices@[j]@, selector@),
        },
{
    let n = devices.len();
    let mut i: usize = 0;
    while i < n
        invariant
            n == devices@.len(),
            i <= n,
            forall|j: int| 0 <= j < i ==> !spec_device_matches(devices@[j]@, selector@),
        decreases n - i,
    {
        if device_matches(&devices[i], selector) {
            return Some(i);
        }
        i = i + 1;
    }
    None
}

} // verus!
