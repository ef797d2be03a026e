//! How the keyboard is found on the bus and how frames reach it.

use vstd::prelude::*;

verus! {

/// USB vendor ID of the keyboard.
pub const VENDOR_ID: u16 = 0x04d9;

/// USB product ID of the keyboard.
pub const PRODUCT_ID: u16 = 0xa096;

/// Interface that receives the control transfers.
pub const INTERFACE: u8 = 1;

/// Request number of every control transfer.
pub const REQUEST: u8 = 9;

/// Value field of every control transfer.
pub const VALUE: u16 = 0x0307;

/// Whether a device with these IDs is the keyboard.
pub open spec fn is_skiller_id(id: (u16, u16)) -> bool {
    id.0 == VENDOR_ID && id.1 == PRODUCT_ID
}

/// Returns whether a device with this vendor ID and product ID is the keyboard.
pub fn is_skiller(vendor_id: u16, product_id: u16) -> (r: bool)
    ensures
        r == is_skiller_id((vendor_id, product_id)),
{
    vendor_id == VENDOR_ID && product_id == PRODUCT_ID
}

/// Given the (vendor ID, product ID) pairs of the devices on the bus in
/// enumeration order, returns the position of the first keyboard, or `None`
/// when no device is one. Only one keyboard per session is managed.
pub fn find_skiller(ids: &Vec<(u16, u16)>) -> (r: Option<usize>)
    ensures
        match r {
            Some(i) => {
                &&& i < ids@.len()
                &&& is_skiller_id(ids@[i as int])
                &&& forall|j: int| 0 <= j < i ==> !is_skiller_id(#[trigger] ids@[j])
            },
            None => forall|j: int| 0 <= j < ids@.len() ==> !is_skiller_id(#[trigger] ids@[j]),
        },
{
    let mut i: usize = 0;
    while i < ids.len()
        invariant
            i <= ids@.len(),
            forall|j: int| 0 <= j < i ==> !is_skiller_id(#[trigger] ids@[j]),
        decreases ids@.len() - i,
    {
        let (vendor_id, product_id) = ids[i];
        if is_skiller(vendor_id, product_id) {
            return Some(i);
        }
        i = i + 1;
    }
    None
}

/// The setup fields of a control transfer that carries one frame.
#[derive(Debug, PartialEq, Eq, Structural, Clone, Copy)]
pub struct ControlSetup {
    /// bmRequestType: host to device, class request, interface recipient.
    pub request_type: u8,
    /// bRequest.
    pub request: u8,
    /// wValue.
    pub value: u16,
    /// wIndex: the interface that receives the frame.
    pub index: u16,
}

/// Relies on rusb::request_type: for `Direction::Out`, `RequestType::Class`
/// and `Recipient::Interface` it ORs 0x00, 0x20 and 0x01 into 0x21.
#[verifier::external_body]
fn class_interface_out() -> (r: u8)
    ensures
        r == 0x21,
{
    rusb::request_type(rusb::Direction::Out, rusb::RequestType::Class, rusb::Recipient::Interface)
}

/// Returns the setup fields that every frame is written with.
pub fn control_setup() -> (r: ControlSetup)
    ensures
        r.request_type == 0x21,
        r.request == REQUEST,
        r.value == VALUE,
        r.index == INTERFACE as u16,
{
    ControlSetup {
        request_type: class_interface_out(),
        request: REQUEST,
        value: VALUE,
        index: INTERFACE as u16,
    }
}

} // verus!
