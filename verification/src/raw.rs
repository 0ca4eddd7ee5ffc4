//! The foreign interface as plain values: the status and driver codes of the
//! foreign library, and records that mirror the layout of its structures.
//!
//! A string pointer of a foreign structure is held as the bytes that it leads
//! to, borrowed from whoever owns them: `None` for a null pointer. A record
//! with such pointers lives no longer than the memory that they lead to.

use vstd::prelude::*;

use crate::cstr::{c_string_at, find_nul, has_nul, is_c_string, read_c_string};

verus! {

/// Status of a foreign call that succeeded.
pub const WDI_SUCCESS: i32 = 0;

/// Status of a foreign call that was handed an invalid parameter.
pub const WDI_ERROR_INVALID_PARAM: i32 = -2;

/// Status of a foreign call that lacked the permissions it needed.
pub const WDI_ERROR_ACCESS: i32 = -3;

/// Status of a foreign call whose device is gone.
pub const WDI_ERROR_NO_DEVICE: i32 = -4;

/// Status of a foreign call that did not find what it looked for.
pub const WDI_ERROR_NOT_FOUND: i32 = -5;

/// Status of a foreign call that met a busy resource or a running call.
pub const WDI_ERROR_BUSY: i32 = -6;

/// Status of a foreign call that could not acquire a resource.
pub const WDI_ERROR_RESOURCE: i32 = -11;

/// Driver code of WinUSB.
pub const WDI_WINUSB: i32 = 0;

/// Driver code of libusb0.
pub const WDI_LIBUSB0: i32 = 1;

/// Driver code of libusbK.
pub const WDI_LIBUSBK: i32 = 2;

/// Driver code of a driver that the user supplies.
pub const WDI_USER: i32 = 3;

/// The foreign integer for a flag: 1 for true, 0 for false.
pub open spec fn spec_flag_to_raw(flag: bool) -> i32 {
    if flag {
        1
    } else {
        0
    }
}

/// The flag that a foreign integer stands for: false for 0, true for every
/// other value.
pub open spec fn spec_flag_from_raw(raw: i32) -> bool {
    raw != 0
}

/// The foreign integer for a flag: 1 for true, 0 for false.
#[verifier::when_used_as_spec(spec_flag_to_raw)]
pub fn flag_to_raw(flag: bool) -> (raw: i32)
    ensures
        raw == spec_flag_to_raw(flag),
{
    if flag {
        1
    } else {
        0
    }
}

/// The flag that a foreign integer stands for: false for 0, true for every
/// other value.
#[verifier::when_used_as_spec(spec_flag_from_raw)]
pub fn flag_from_raw(raw: i32) -> (flag: bool)
    ensures
        flag == spec_flag_from_raw(raw),
{
    raw != 0
}

/// What a foreign string pointer leads to: nothing where the pointer is
/// null, else the bytes from the pointer on.
pub open spec fn mem_view(pointer: Option<&[u8]>) -> Option<Seq<u8>> {
    match pointer {
        Some(mem) => Some(mem@),
        None => None,
    }
}

/// An owned buffer that may be absent, as its bytes.
pub open spec fn buffer_view(buffer: Option<Vec<u8>>) -> Option<Seq<u8>> {
    match buffer {
        Some(bytes) => Some(bytes@),
        None => None,
    }
}

/// Whether a foreign string pointer can be read: it is null, or a C string
/// starts where it leads.
pub open spec fn pointer_readable(pointer: Option<Seq<u8>>) -> bool {
    pointer matches Some(mem) ==> has_nul(mem)
}

/// Whether a string that may be absent is, where present, exactly one C
/// string with its closing NUL.
pub open spec fn is_optional_c_string(s: Option<Seq<u8>>) -> bool {
    s matches Some(bytes) ==> is_c_string(bytes)
}

/// What reading a foreign string pointer gives: nothing for a null pointer,
/// else the C string at the pointer, closing NUL included.
pub open spec fn string_read(pointer: Option<Seq<u8>>) -> Option<Seq<u8>> {
    match pointer {
        Some(mem) => Some(c_string_at(mem)),
        None => None,
    }
}

/// Whether a foreign string pointer can be read.
pub fn pointer_is_readable(pointer: Option<&[u8]>) -> (r: bool)
    ensures
        r == pointer_readable(mem_view(pointer)),
{
    match pointer {
        Some(mem) => find_nul(mem).is_some(),
        None => true,
    }
}

/// Reads a foreign string pointer into an owned buffer: absent for a null
/// pointer, else a copy of the C string at the pointer.
pub fn read_pointer(pointer: Option<&[u8]>) -> (r: Option<Vec<u8>>)
    requires
        pointer_readable(mem_view(pointer)),
    ensures
        buffer_view(r) == string_read(mem_view(pointer)),
        is_optional_c_string(buffer_view(r)),
{
    match pointer {
        Some(mem) => Some(read_c_string(mem)),
        None => None,
    }
}

/// A foreign string pointer into an owned buffer: null where the buffer is
/// absent, else leading to all of its bytes.
pub fn pointer_to<'a>(buffer: &'a Option<Vec<u8>>) -> (r: Option<&'a [u8]>)
    ensures
        mem_view(r) == buffer_view(*buffer),
{
    match buffer {
        Some(bytes) => Some(bytes.as_slice()),
        None => None,
    }
}

/// One node of the foreign device list, laid out as the foreign library
/// lays it out. A string pointer is held as the bytes that it leads to
/// (`None` for a null pointer), the link as the node behind it (`None` for
/// the null link that ends the list).
#[derive(Debug, PartialEq, Eq)]
pub struct RawDeviceInfo<'a> {
    pub next: Option<Box<RawDeviceInfo<'a>>>,
    pub vid: u16,
    pub pid: u16,
    pub is_composite: i32,
    pub mi: u8,
    pub desc: Option<&'a [u8]>,
    pub driver: Option<&'a [u8]>,
    pub device_id: Option<&'a [u8]>,
    pub hardware_id: Option<&'a [u8]>,
    pub compatible_id: Option<&'a [u8]>,
    pub upper_filter: Option<&'a [u8]>,
    pub driver_version: u64,
}

/// What one node of the foreign device list holds, without its link.
pub struct RawNode {
    pub vid: u16,
    pub pid: u16,
    pub is_composite: i32,
    pub mi: u8,
    pub desc: Option<Seq<u8>>,
    pub driver: Option<Seq<u8>>,
    pub device_id: Option<Seq<u8>>,
    pub hardware_id: Option<Seq<u8>>,
    pub compatible_id: Option<Seq<u8>>,
    pub upper_filter: Option<Seq<u8>>,
    pub driver_version: u64,
}

impl RawNode {
    /// Whether the node can be copied to an owned record: its description
    /// is there, and every string pointer that is not null leads to a C
    /// string.
    pub open spec fn readable(self) -> bool {
        &&& self.desc is Some
        &&& pointer_readable(self.desc)
        &&& pointer_readable(self.driver)
        &&& pointer_readable(self.device_id)
        &&& pointer_readable(self.hardware_id)
        &&& pointer_readable(self.compatible_id)
        &&& pointer_readable(self.upper_filter)
    }
}

impl<'a> RawDeviceInfo<'a> {
    /// What this node holds, without its link.
    pub open spec fn node(&self) -> RawNode {
        RawNode {
            vid: self.vid,
            pid: self.pid,
            is_composite: self.is_composite,
            mi: self.mi,
            desc: mem_view(self.desc),
            driver: mem_view(self.driver),
            device_id: mem_view(self.device_id),
            hardware_id: mem_view(self.hardware_id),
            compatible_id: mem_view(self.compatible_id),
            upper_filter: mem_view(self.upper_filter),
            driver_version: self.driver_version,
        }
    }

    /// The list that starts at this node: the node, then those behind it in
    /// the order of their links.
    pub open spec fn chain(&self) -> Seq<RawNode>
        decreases self,
    {
        match self.next {
            Some(next) => seq![self.node()] + next.chain(),
            None => seq![self.node()],
        }
    }

    /// Whether this node can be copied to an owned record.
    pub fn is_readable(&self) -> (r: bool)
        ensures
            r == self.node().readable(),
    {
        self.desc.is_some() && pointer_is_readable(self.desc) && pointer_is_readable(self.driver)
            && pointer_is_readable(self.device_id) && pointer_is_readable(self.hardware_id)
            && pointer_is_readable(self.compatible_id) && pointer_is_readable(self.upper_filter)
    }
}

impl<'a> Clone for RawDeviceInfo<'a> {
    /// A copy of this node and of the nodes behind it, with pointers to the
    /// same bytes.
    fn clone(&self) -> (r: Self)
        ensures
            r@ == self@,
        decreases self,
    {
        RawDeviceInfo {
            next: (match &self.next {
                Some(next) => Some(Box::new((&**next).clone())),
                None => None,
            }),
            vid: self.vid,
            pid: self.pid,
            is_composite: self.is_composite,
            mi: self.mi,
            desc: self.desc,
            driver: self.driver,
            device_id: self.device_id,
            hardware_id: self.hardware_id,
            compatible_id: self.compatible_id,
            upper_filter: self.upper_filter,
            driver_version: self.driver_version,
        }
    }
}

impl<'a> View for RawDeviceInfo<'a> {
    type V = Seq<RawNode>;

    open spec fn view(&self) -> Seq<RawNode> {
        self.chain()
    }
}

/// The foreign device list behind a head pointer: empty for a null pointer,
/// else the nodes from the head on.
pub open spec fn list_view(head: Option<Box<RawDeviceInfo>>) -> Seq<RawNode> {
    match head {
        Some(first) => first.chain(),
        None => Seq::empty(),
    }
}

/// The options of the foreign enumeration call, laid out as the foreign
/// library lays them out: each flag an integer.
#[derive(Debug, Copy, Clone, PartialEq, Eq, Structural)]
pub struct RawCreateListOptions {
    pub list_all: i32,
    pub list_hubs: i32,
    pub trim_whitespaces: i32,
}

/// The options of the foreign call that prepares a driver, laid out as the
/// foreign library lays them out. A string pointer is held as the bytes
/// that it leads to (`None` for a null pointer).
#[derive(Debug, Copy, Clone, PartialEq, Eq)]
pub struct RawPrepareDriverOptions<'a> {
    pub driver_type: i32,
    pub vendor_name: Option<&'a [u8]>,
    pub device_guid: Option<&'a [u8]>,
    pub disable_cat: i32,
    pub disable_signing: i32,
    pub cert_subject: Option<&'a [u8]>,
    pub use_wcid_driver: i32,
    pub external_inf: i32,
}

/// The options of the foreign call that prepares a driver, as plain values.
pub struct RawPrepareDriverOptionsView {
    pub driver_type: i32,
    pub vendor_name: Option<Seq<u8>>,
    pub device_guid: Option<Seq<u8>>,
    pub disable_cat: i32,
    pub disable_signing: i32,
    pub cert_subject: Option<Seq<u8>>,
    pub use_wcid_driver: i32,
    pub external_inf: i32,
}

impl<'a> View for RawPrepareDriverOptions<'a> {
    type V = RawPrepareDriverOptionsView;

    open spec fn view(&self) -> RawPrepareDriverOptionsView {
        RawPrepareDriverOptionsView {
            driver_type: self.driver_type,
            vendor_name: mem_view(self.vendor_name),
            device_guid: mem_view(self.device_guid),
            disable_cat: self.disable_cat,
            disable_signing: self.disable_signing,
            cert_subject: mem_view(self.cert_subject),
            use_wcid_driver: self.use_wcid_driver,
            external_inf: self.external_inf,
        }
    }
}

/// The options of the foreign call that installs a driver, laid out as the
/// foreign library lays them out. The window handle is held as its address,
/// 0 for a null handle.
#[derive(Debug, Copy, Clone, PartialEq, Eq, Structural)]
pub struct RawInstallDriverOptions {
    pub hwnd: usize,
    pub install_filter_driver: i32,
    pub pending_install_timeout: u32,
}

} // verus!
