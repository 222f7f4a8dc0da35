//! The device-status endpoint: an empty device element.

use vstd::prelude::*;
use crate::xml::Xml;

verus! {

pub struct Device;

pub fn current_device_status() -> Xml<Device> {
    Xml(Device)
}

} // verus!
