use vstd::prelude::*;

verus! {

/// Usage page of the headset's control interface.
pub const USAGE_PAGE: u16 = 0xFF90;
/// Vendor ID of the headset.
pub const VENDOR_ID: u16 = 0x03F0;
/// Product ID of the headset.
pub const PRODUCT_ID: u16 = 0x0D93;

/// The identifiers of a HID interface, as the device list reports them.
#[derive(Debug, Clone, Copy, PartialEq, Eq, Structural)]
pub struct DeviceIds {
    pub vendor_id: u16,
    pub product_id: u16,
    pub usage_page: u16,
}

/// Whether an interface is the headset's control interface.
pub open spec fn spec_is_headset(ids: DeviceIds) -> bool {
    ids.product_id == PRODUCT_ID && ids.vendor_id == VENDOR_ID && ids.usage_page == USAGE_PAGE
}

impl DeviceIds {
    /// Whether this interface is the headset's control interface.
    pub fn is_headset(&self) -> (b: bool)
        ensures
            b == spec_is_headset(*self),
    {
        self.product_id == PRODUCT_ID && self.vendor_id == VENDOR_ID && self.usage_page
            == USAGE_PAGE
    }
}

/// The position of the first interface in the list that is the headset's
/// control interface, if there is one.
pub fn find_headset(devices: &Vec<DeviceIds>) -> (found: Option<usize>)
    ensures
        match found {
            Some(i) => {
                &&& i < devices@.len()
                &&& spec_is_headset(devices@[i as int])
                &&& forall|j: int| 0 <= j < i ==> !spec_is_headset(#[trigger] devices@[j])
            },
            None => forall|j: int| 0 <= j < devices@.len() ==> !spec_is_headset(#[trigger] devices@[j]),
        },
{
    let mut i: usize = 0;
    while i < devices.len()
        invariant
            i <= devices@.len(),
            forall|j: int| 0 <= j < i ==> !spec_is_headset(#[trigger] devices@[j]),
        decreases devices@.len() - i,
    {
        if devices[i].is_headset() {
            return Some(i);
        }
        i = i + 1;
    }
    None
}

} // verus!
