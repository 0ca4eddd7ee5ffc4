//! The owned record of one USB device, and its exchange with the node of the
//! foreign device list that it is copied from.

use vstd::prelude::*;
use vstd::slice::*;
use vstd::string::*;

use crate::cstr::{is_c_string, is_c_string_bytes, lemma_c_string_at_self};
use crate::raw::{
    buffer_view, flag_from_raw, flag_to_raw, is_optional_c_string, pointer_readable, pointer_to,
    read_pointer, string_read, RawDeviceInfo, RawNode,
};
use crate::text::{
    bstr_debug, bstr_debug_text, decimal_text, digits, field_views, flag_text, flag_word, hex4,
    hex4_text, optional, optional_text, quoted, quoted_text, record, record_text,
};

verus! {

/// What the foreign library reports of one USB device, in buffers of its own.
///
/// The description is always there. Each string is held as the bytes of a C
/// string, closing NUL included.
#[derive(PartialEq, Eq)]
pub struct DeviceInfo {
    pub vid: u16,
    pub pid: u16,
    pub is_composite: bool,
    pub mi: u8,
    pub desc: Vec<u8>,
    pub driver: Option<Vec<u8>>,
    pub device_id: Option<Vec<u8>>,
    pub hardware_id: Option<Vec<u8>>,
    pub compatible_id: Option<Vec<u8>>,
    pub upper_filter: Option<Vec<u8>>,
    pub driver_version: u64,
}

/// A device record as plain values.
pub struct DeviceInfoView {
    pub vid: u16,
    pub pid: u16,
    pub is_composite: bool,
    pub mi: u8,
    pub desc: Seq<u8>,
    pub driver: Option<Seq<u8>>,
    pub device_id: Option<Seq<u8>>,
    pub hardware_id: Option<Seq<u8>>,
    pub compatible_id: Option<Seq<u8>>,
    pub upper_filter: Option<Seq<u8>>,
    pub driver_version: u64,
}

impl View for DeviceInfo {
    type V = DeviceInfoView;

    open spec fn view(&self) -> DeviceInfoView {
        DeviceInfoView {
            vid: self.vid,
            pid: self.pid,
            is_composite: self.is_composite,
            mi: self.mi,
            desc: self.desc@,
            driver: buffer_view(self.driver),
            device_id: buffer_view(self.device_id),
            hardware_id: buffer_view(self.hardware_id),
            compatible_id: buffer_view(self.compatible_id),
            upper_filter: buffer_view(self.upper_filter),
            driver_version: self.driver_version,
        }
    }
}

impl RawNode {
    /// The owned record that this node is copied to: the numbers as they
    /// are, the flag set unless its integer is 0, and each string read from
    /// where its pointer leads.
    pub open spec fn owned(self) -> DeviceInfoView {
        DeviceInfoView {
            vid: self.vid,
            pid: self.pid,
            is_composite: flag_from_raw(self.is_composite),
            mi: self.mi,
            desc: string_read(self.desc).unwrap(),
            driver: string_read(self.driver),
            device_id: string_read(self.device_id),
            hardware_id: string_read(self.hardware_id),
            compatible_id: string_read(self.compatible_id),
            upper_filter: string_read(self.upper_filter),
            driver_version: self.driver_version,
        }
    }
}

impl DeviceInfoView {
    /// The foreign node that stands for this record: the numbers as they
    /// are, the flag as 1 or 0, and each string pointer leading to the whole
    /// buffer, or null where the string is absent.
    pub open spec fn raw(self) -> RawNode {
        RawNode {
            vid: self.vid,
            pid: self.pid,
            is_composite: flag_to_raw(self.is_composite),
            mi: self.mi,
            desc: Some(self.desc),
            driver: self.driver,
            device_id: self.device_id,
            hardware_id: self.hardware_id,
            compatible_id: self.compatible_id,
            upper_filter: self.upper_filter,
            driver_version: self.driver_version,
        }
    }

    /// Whether every string of the record is exactly one C string with its
    /// closing NUL.
    pub open spec fn well_formed(self) -> bool {
        &&& is_c_string(self.desc)
        &&& is_optional_c_string(self.driver)
        &&& is_optional_c_string(self.device_id)
        &&& is_optional_c_string(self.hardware_id)
        &&& is_optional_c_string(self.compatible_id)
        &&& is_optional_c_string(self.upper_filter)
    }
}

/// A byte string that may be absent as it is shown for inspection: `None`,
/// or `Some(` and `)` around the byte string as `bstr` shows it.
pub open spec fn optional_bstr_text(bytes: Option<Seq<u8>>) -> Seq<char> {
    optional_text(
        match bytes {
            Some(bytes) => Some(bstr_debug_text(bytes)),
            None => None,
        },
    )
}

impl DeviceInfoView {
    /// The fields of the record as they are shown for inspection, each
    /// with its name: the two ids as quoted hexadecimal numbers, the other
    /// numbers in decimal, the strings as `bstr` shows byte strings.
    pub open spec fn debug_fields(self) -> Seq<(Seq<char>, Seq<char>)> {
        seq![
            ("vid"@, quoted_text(hex4_text(self.vid))),
            ("pid"@, quoted_text(hex4_text(self.pid))),
            ("is_composite"@, flag_text(self.is_composite)),
            ("mi"@, decimal_text(self.mi as int)),
            ("desc"@, bstr_debug_text(self.desc)),
            ("driver"@, optional_bstr_text(self.driver)),
            ("device_id"@, optional_bstr_text(self.device_id)),
            ("hardware_id"@, optional_bstr_text(self.hardware_id)),
            ("compatible_id"@, optional_bstr_text(self.compatible_id)),
            ("upper_filter"@, optional_bstr_text(self.upper_filter)),
            ("driver_version"@, decimal_text(self.driver_version as int)),
        ]
    }

    /// The record as it is shown for inspection, on one line, under the
    /// name `DisplayInfo`.
    pub open spec fn debug_text(self) -> Seq<char> {
        record_text("DisplayInfo"@, self.debug_fields())
    }
}

/// A byte string that may be absent as it is shown for inspection.
fn optional_bstr(bytes: &Option<Vec<u8>>) -> (r: String)
    ensures
        r@ == optional_bstr_text(buffer_view(*bytes)),
{
    match bytes {
        Some(bytes) => {
            let text = bstr_debug(bytes.as_slice());
            optional(Some(text.as_str()))
        },
        None => optional(None),
    }
}

/// Whether a buffer that may be absent holds, where present, exactly one C
/// string with its closing NUL.
fn is_optional_c_string_bytes(buffer: &Option<Vec<u8>>) -> (r: bool)
    ensures
        r == is_optional_c_string(buffer_view(*buffer)),
{
    match buffer {
        Some(bytes) => is_c_string_bytes(bytes.as_slice()),
        None => true,
    }
}

impl DeviceInfo {
    /// Copies a node of the foreign device list to an owned record, which
    /// keeps nothing of the foreign memory. The node's link is not followed.
    ///
    /// The description must be there: the foreign library never leaves it
    /// out.
    pub fn clone_from_raw(raw: &RawDeviceInfo) -> (info: DeviceInfo)
        requires
            raw.node().readable(),
        ensures
            info@ == raw.node().owned(),
            info@.well_formed(),
    {
        let desc = read_pointer(raw.desc).unwrap();
        let driver = read_pointer(raw.driver);
        let device_id = read_pointer(raw.device_id);
        let hardware_id = read_pointer(raw.hardware_id);
        let compatible_id = read_pointer(raw.compatible_id);
        let upper_filter = read_pointer(raw.upper_filter);
        DeviceInfo {
            vid: raw.vid,
            pid: raw.pid,
            is_composite: flag_from_raw(raw.is_composite),
            mi: raw.mi,
            desc,
            driver,
            device_id,
            hardware_id,
            compatible_id,
            upper_filter,
            driver_version: raw.driver_version,
        }
    }

    /// The foreign node that stands for this record, with a null link. Its
    /// string pointers lead into the buffers of this record, which stays
    /// borrowed, and as it was, for as long as the node lives.
    ///
    /// Where every string of the record is exactly one C string, the node
    /// can be copied back, and the copy is this record.
    pub fn as_raw<'a>(&'a mut self) -> (raw: RawDeviceInfo<'a>)
        ensures
            *final(self) == *old(self),
            raw.next is None,
            raw.node() == old(self)@.raw(),
            raw@ == seq![old(self)@.raw()],
            old(self)@.well_formed() ==> raw.node().readable() && raw.node().owned() == old(
                self,
            )@,
    {
        proof {
            if self@.well_formed() {
                lemma_device_info_round_trip(self@);
            }
        }
        RawDeviceInfo {
            next: None,
            vid: self.vid,
            pid: self.pid,
            is_composite: flag_to_raw(self.is_composite),
            mi: self.mi,
            desc: Some(self.desc.as_slice()),
            driver: pointer_to(&self.driver),
            device_id: pointer_to(&self.device_id),
            hardware_id: pointer_to(&self.hardware_id),
            compatible_id: pointer_to(&self.compatible_id),
            upper_filter: pointer_to(&self.upper_filter),
            driver_version: self.driver_version,
        }
    }

    /// The record as it is shown for inspection, on one line, under the
    /// name `DisplayInfo`.
    pub fn debug_string(&self) -> (s: String)
        ensures
            s@ == self@.debug_text(),
    {
        let mut fields: Vec<(String, String)> = Vec::new();
        fields.push((String::from_str("vid"), quoted(hex4(self.vid).as_str())));
        fields.push((String::from_str("pid"), quoted(hex4(self.pid).as_str())));
        fields.push((String::from_str("is_composite"), flag_word(self.is_composite)));
        fields.push((String::from_str("mi"), digits(self.mi as u64)));
        fields.push((String::from_str("desc"), bstr_debug(self.desc.as_slice())));
        fields.push((String::from_str("driver"), optional_bstr(&self.driver)));
        fields.push((String::from_str("device_id"), optional_bstr(&self.device_id)));
        fields.push((String::from_str("hardware_id"), optional_bstr(&self.hardware_id)));
        fields.push((String::from_str("compatible_id"), optional_bstr(&self.compatible_id)));
        fields.push((String::from_str("upper_filter"), optional_bstr(&self.upper_filter)));
        fields.push((String::from_str("driver_version"), digits(self.driver_version)));
        assert(field_views(fields@) =~= self@.debug_fields());
        record("DisplayInfo", &fields)
    }

    /// Whether every string of the record is exactly one C string with its
    /// closing NUL.
    pub fn is_well_formed(&self) -> (r: bool)
        ensures
            r == self@.well_formed(),
    {
        is_c_string_bytes(self.desc.as_slice()) && is_optional_c_string_bytes(&self.driver)
            && is_optional_c_string_bytes(&self.device_id) && is_optional_c_string_bytes(
            &self.hardware_id,
        ) && is_optional_c_string_bytes(&self.compatible_id) && is_optional_c_string_bytes(
            &self.upper_filter,
        )
    }
}

/// A copy of a buffer that may be absent.
fn copy_buffer(buffer: &Option<Vec<u8>>) -> (r: Option<Vec<u8>>)
    ensures
        buffer_view(r) == buffer_view(*buffer),
{
    match buffer {
        Some(bytes) => Some(slice_to_vec(bytes.as_slice())),
        None => None,
    }
}

impl Clone for DeviceInfo {
    fn clone(&self) -> (r: Self)
        ensures
            r@ == self@,
    {
        DeviceInfo {
            vid: self.vid,
            pid: self.pid,
            is_composite: self.is_composite,
            mi: self.mi,
            desc: slice_to_vec(self.desc.as_slice()),
            driver: copy_buffer(&self.driver),
            device_id: copy_buffer(&self.device_id),
            hardware_id: copy_buffer(&self.hardware_id),
            compatible_id: copy_buffer(&self.compatible_id),
            upper_filter: copy_buffer(&self.upper_filter),
            driver_version: self.driver_version,
        }
    }
}

/// A string that is exactly one C string is read back whole from a pointer
/// to it.
proof fn lemma_string_read_back(s: Option<Seq<u8>>)
    requires
        is_optional_c_string(s),
    ensures
        pointer_readable(s),
        string_read(s) == s,
{
    if let Some(bytes) = s {
        lemma_c_string_at_self(bytes);
    }
}

/// A record whose strings are each exactly one C string comes back
/// unchanged from the foreign node that stands for it: that node can be
/// copied, and the copy is the record.
pub proof fn lemma_device_info_round_trip(info: DeviceInfoView)
    requires
        info.well_formed(),
    ensures
        info.raw().readable(),
        info.raw().owned() == info,
{
    lemma_string_read_back(Some(info.desc));
    lemma_string_read_back(info.driver);
    lemma_string_read_back(info.device_id);
    lemma_string_read_back(info.hardware_id);
    lemma_string_read_back(info.compatible_id);
    lemma_string_read_back(info.upper_filter);
}

} // verus!
