//! Preparing a driver: the options of the preparation, their exchange with
//! the foreign options, and what is handed to the foreign call.

use vstd::prelude::*;
use vstd::string::*;

use crate::cstr::{has_nul, lemma_c_string_at_self, optional_view, CStrBuf};
use crate::device::DeviceInfo;
use crate::driver_type::DriverType;
use crate::raw::{
    flag_from_raw, flag_to_raw, is_optional_c_string, mem_view, pointer_is_readable,
    pointer_readable, string_read, RawDeviceInfo, RawPrepareDriverOptions,
    RawPrepareDriverOptionsView,
};

verus! {

/// How a driver is prepared for a device.
#[derive(Debug, PartialEq, Eq)]
pub struct PrepareDriverOptions {
    /// Type of driver to extract.
    driver_type: DriverType,
    /// Overrides the vendor name generated for the INF.
    vendor_name: Option<CStrBuf>,
    /// Overrides the device GUID generated for the INF, braces included.
    device_guid: Option<CStrBuf>,
    /// Disable generation of a cat file.
    disable_cat: bool,
    /// Disable self-signing of the cat file.
    disable_signing: bool,
    /// Identifies the self-signed certificate that is generated.
    cert_subject: Option<CStrBuf>,
    /// Use a generic pre-installed WCID driver instead of a device-specific one.
    use_wcid_driver: bool,
    /// Take the INF name for an existing INF instead of generating one.
    external_inf: bool,
}

/// Preparation options as plain values. Each string is held as the bytes of
/// a C string, closing NUL included.
pub struct PrepareDriverOptionsView {
    pub driver_type: DriverType,
    pub vendor_name: Option<Seq<u8>>,
    pub device_guid: Option<Seq<u8>>,
    pub disable_cat: bool,
    pub disable_signing: bool,
    pub cert_subject: Option<Seq<u8>>,
    pub use_wcid_driver: bool,
    pub external_inf: bool,
}

impl View for PrepareDriverOptions {
    type V = PrepareDriverOptionsView;

    closed spec fn view(&self) -> PrepareDriverOptionsView {
        PrepareDriverOptionsView {
            driver_type: self.driver_type,
            vendor_name: optional_view(self.vendor_name),
            device_guid: optional_view(self.device_guid),
            disable_cat: self.disable_cat,
            disable_signing: self.disable_signing,
            cert_subject: optional_view(self.cert_subject),
            use_wcid_driver: self.use_wcid_driver,
            external_inf: self.external_inf,
        }
    }
}

impl PrepareDriverOptionsView {
    /// The options that a new record holds: WinUSB, no string, no flag set.
    pub open spec fn baseline() -> PrepareDriverOptionsView {
        PrepareDriverOptionsView {
            driver_type: DriverType::WinUsb,
            vendor_name: None,
            device_guid: None,
            disable_cat: false,
            disable_signing: false,
            cert_subject: None,
            use_wcid_driver: false,
            external_inf: false,
        }
    }

    /// Whether every string of the options is exactly one C string with its
    /// closing NUL, as it is in every options record: see `as_raw`.
    pub open spec fn well_formed(self) -> bool {
        &&& is_optional_c_string(self.vendor_name)
        &&& is_optional_c_string(self.device_guid)
        &&& is_optional_c_string(self.cert_subject)
    }

    /// The foreign options that stand for these: the driver type as its
    /// code, each flag as 1 or 0, and each string pointer leading to the
    /// string, or null where the string is absent.
    pub open spec fn raw(self) -> RawPrepareDriverOptionsView {
        RawPrepareDriverOptionsView {
            driver_type: self.driver_type.spec_to_raw(),
            vendor_name: self.vendor_name,
            device_guid: self.device_guid,
            disable_cat: flag_to_raw(self.disable_cat),
            disable_signing: flag_to_raw(self.disable_signing),
            cert_subject: self.cert_subject,
            use_wcid_driver: flag_to_raw(self.use_wcid_driver),
            external_inf: flag_to_raw(self.external_inf),
        }
    }
}

impl RawPrepareDriverOptionsView {
    /// Whether the foreign options can be copied to an owned record: the
    /// driver code is the code of a kind of driver, and every string pointer
    /// that is not null leads to a C string.
    pub open spec fn readable(self) -> bool {
        &&& DriverType::spec_from_raw(self.driver_type) is Ok
        &&& pointer_readable(self.vendor_name)
        &&& pointer_readable(self.device_guid)
        &&& pointer_readable(self.cert_subject)
    }

    /// The options that the foreign options are copied to: the driver type
    /// that the code stands for, each flag set unless its integer is 0, and
    /// each string read from where its pointer leads.
    pub open spec fn owned(self) -> PrepareDriverOptionsView {
        PrepareDriverOptionsView {
            driver_type: DriverType::spec_from_raw(self.driver_type).unwrap(),
            vendor_name: string_read(self.vendor_name),
            device_guid: string_read(self.device_guid),
            disable_cat: flag_from_raw(self.disable_cat),
            disable_signing: flag_from_raw(self.disable_signing),
            cert_subject: string_read(self.cert_subject),
            use_wcid_driver: flag_from_raw(self.use_wcid_driver),
            external_inf: flag_from_raw(self.external_inf),
        }
    }
}

impl<'a> RawPrepareDriverOptions<'a> {
    /// Whether the foreign options can be copied to an owned record.
    pub fn is_readable(&self) -> (r: bool)
        ensures
            r == self@.readable(),
    {
        DriverType::from_raw(self.driver_type).is_ok() && pointer_is_readable(self.vendor_name)
            && pointer_is_readable(self.device_guid) && pointer_is_readable(self.cert_subject)
    }
}

/// Reads a foreign string pointer into an owned C string: absent for a null
/// pointer, else a copy of the C string at the pointer.
fn read_c_str(pointer: Option<&[u8]>) -> (r: Option<CStrBuf>)
    requires
        pointer_readable(mem_view(pointer)),
    ensures
        optional_view(r) == string_read(mem_view(pointer)),
        is_optional_c_string(optional_view(r)),
{
    match pointer {
        Some(mem) => Some(CStrBuf::from_memory(mem)),
        None => None,
    }
}

/// A foreign string pointer to an owned C string: null where the string is
/// absent, else leading to its bytes.
fn pointer_to_c_str<'a>(s: &'a Option<CStrBuf>) -> (r: Option<&'a [u8]>)
    ensures
        mem_view(r) == optional_view(*s),
        is_optional_c_string(optional_view(*s)),
{
    match s {
        Some(s) => Some(s.as_bytes_with_nul()),
        None => None,
    }
}

/// A copy of a C string that may be absent.
fn clone_c_str(s: &Option<CStrBuf>) -> (r: Option<CStrBuf>)
    ensures
        optional_view(r) == optional_view(*s),
{
    match s {
        Some(s) => Some(s.clone()),
        None => None,
    }
}

impl Default for PrepareDriverOptions {
    /// The baseline: WinUSB, no string, no flag set.
    fn default() -> (r: Self)
        ensures
            r@ == PrepareDriverOptionsView::baseline(),
    {
        PrepareDriverOptions {
            driver_type: DriverType::WinUsb,
            vendor_name: None,
            device_guid: None,
            disable_cat: false,
            disable_signing: false,
            cert_subject: None,
            use_wcid_driver: false,
            external_inf: false,
        }
    }
}

impl Clone for PrepareDriverOptions {
    fn clone(&self) -> (r: Self)
        ensures
            r@ == self@,
    {
        PrepareDriverOptions {
            driver_type: self.driver_type,
            vendor_name: clone_c_str(&self.vendor_name),
            device_guid: clone_c_str(&self.device_guid),
            disable_cat: self.disable_cat,
            disable_signing: self.disable_signing,
            cert_subject: clone_c_str(&self.cert_subject),
            use_wcid_driver: self.use_wcid_driver,
            external_inf: self.external_inf,
        }
    }
}

/// Building the options: each of these gives the options back with one
/// setting replaced and the others as they were.
impl PrepareDriverOptions {
    /// Type of driver to extract.
    pub fn driver_type(self, driver_type: DriverType) -> (r: Self)
        ensures
            r@ == (PrepareDriverOptionsView { driver_type, ..self@ }),
    {
        Self { driver_type, ..self }
    }

    /// A string to override the vendor name generated for the INF, or
    /// `None` for the generated name.
    pub fn vendor_name(self, vendor_name: Option<CStrBuf>) -> (r: Self)
        ensures
            r@ == (PrepareDriverOptionsView { vendor_name: optional_view(vendor_name), ..self@ }),
    {
        Self { vendor_name, ..self }
    }

    /// A GUID string, braces included, to override the device GUID
    /// generated for the INF, or `None` for the generated GUID.
    pub fn device_guid(self, device_guid: Option<CStrBuf>) -> (r: Self)
        ensures
            r@ == (PrepareDriverOptionsView { device_guid: optional_view(device_guid), ..self@ }),
    {
        Self { device_guid, ..self }
    }

    /// Disable generation of a cat file.
    pub fn disable_cat(self, disable_cat: bool) -> (r: Self)
        ensures
            r@ == (PrepareDriverOptionsView { disable_cat, ..self@ }),
    {
        Self { disable_cat, ..self }
    }

    /// Disable self-signing of the cat file.
    pub fn disable_signing(self, disable_signing: bool) -> (r: Self)
        ensures
            r@ == (PrepareDriverOptionsView { disable_signing, ..self@ }),
    {
        Self { disable_signing, ..self }
    }

    /// The string that identifies the generated self-signed certificate, or
    /// `None` for the generated subject.
    pub fn cert_subject(self, cert_subject: Option<CStrBuf>) -> (r: Self)
        ensures
            r@ == (PrepareDriverOptionsView { cert_subject: optional_view(cert_subject), ..self@ }),
    {
        Self { cert_subject, ..self }
    }

    /// Use a generic pre-installed WCID driver instead of a device-specific
    /// one.
    pub fn use_wcid_driver(self, use_wcid_driver: bool) -> (r: Self)
        ensures
            r@ == (PrepareDriverOptionsView { use_wcid_driver, ..self@ }),
    {
        Self { use_wcid_driver, ..self }
    }

    /// Take the INF name for an existing INF instead of generating one.
    pub fn external_inf(self, external_inf: bool) -> (r: Self)
        ensures
            r@ == (PrepareDriverOptionsView { external_inf, ..self@ }),
    {
        Self { external_inf, ..self }
    }
}

/// Reading the options. The names carry `get_`, since the plain names build.
impl PrepareDriverOptions {
    /// Type of driver to extract.
    pub fn get_driver_type(&self) -> (r: DriverType)
        ensures
            r == self@.driver_type,
    {
        self.driver_type
    }

    /// The string that overrides the vendor name generated for the INF, if
    /// one was set.
    pub fn get_vendor_name(&self) -> (r: Option<&CStrBuf>)
        ensures
            r matches Some(s) ==> self@.vendor_name == Some(s@),
            r is None <==> self@.vendor_name is None,
    {
        self.vendor_name.as_ref()
    }

    /// The GUID string that overrides the device GUID generated for the
    /// INF, if one was set.
    pub fn get_device_guid(&self) -> (r: Option<&CStrBuf>)
        ensures
            r matches Some(s) ==> self@.device_guid == Some(s@),
            r is None <==> self@.device_guid is None,
    {
        self.device_guid.as_ref()
    }

    /// Whether generation of a cat file is disabled.
    pub fn get_disable_cat(&self) -> (r: bool)
        ensures
            r == self@.disable_cat,
    {
        self.disable_cat
    }

    /// Whether self-signing of the cat file is disabled.
    pub fn get_disable_signing(&self) -> (r: bool)
        ensures
            r == self@.disable_signing,
    {
        self.disable_signing
    }

    /// The string that identifies the generated self-signed certificate, if
    /// one was set.
    pub fn get_cert_subject(&self) -> (r: Option<&CStrBuf>)
        ensures
            r matches Some(s) ==> self@.cert_subject == Some(s@),
            r is None <==> self@.cert_subject is None,
    {
        self.cert_subject.as_ref()
    }

    /// Whether a generic pre-installed WCID driver is used.
    pub fn get_use_wcid_driver(&self) -> (r: bool)
        ensures
            r == self@.use_wcid_driver,
    {
        self.use_wcid_driver
    }

    /// Whether the INF name is taken for an existing INF.
    pub fn get_external_inf(&self) -> (r: bool)
        ensures
            r == self@.external_inf,
    {
        self.external_inf
    }
}

/// Exchange with the foreign options.
impl PrepareDriverOptions {
    /// The foreign options that stand for these. Their string pointers lead
    /// into the strings of this record, which stays borrowed, and as it was,
    /// for as long as they live. They can be copied back, and the copy is
    /// this record.
    pub fn as_raw<'a>(&'a mut self) -> (raw: RawPrepareDriverOptions<'a>)
        ensures
            *final(self) == *old(self),
            raw@ == old(self)@.raw(),
            old(self)@.well_formed(),
            raw@.readable(),
            raw@.owned() == old(self)@,
    {
        let raw = RawPrepareDriverOptions {
            driver_type: self.driver_type.to_raw(),
            vendor_name: pointer_to_c_str(&self.vendor_name),
            device_guid: pointer_to_c_str(&self.device_guid),
            disable_cat: flag_to_raw(self.disable_cat),
            disable_signing: flag_to_raw(self.disable_signing),
            cert_subject: pointer_to_c_str(&self.cert_subject),
            use_wcid_driver: flag_to_raw(self.use_wcid_driver),
            external_inf: flag_to_raw(self.external_inf),
        };
        proof {
            lemma_prepare_driver_options_round_trip(self@);
        }
        raw
    }

    /// Copies foreign options to an owned record, which keeps nothing of
    /// the foreign memory.
    ///
    /// The driver code must be the code of a kind of driver: the foreign
    /// library hands out no other.
    pub fn clone_from_raw(raw: &RawPrepareDriverOptions<'_>) -> (options: PrepareDriverOptions)
        requires
            raw@.readable(),
        ensures
            options@ == raw@.owned(),
            options@.well_formed(),
    {
        let driver_type = DriverType::from_raw(raw.driver_type).unwrap();
        let vendor_name = read_c_str(raw.vendor_name);
        let device_guid = read_c_str(raw.device_guid);
        let cert_subject = read_c_str(raw.cert_subject);
        PrepareDriverOptions {
            driver_type,
            vendor_name,
            device_guid,
            disable_cat: flag_from_raw(raw.disable_cat),
            disable_signing: flag_from_raw(raw.disable_signing),
            cert_subject,
            use_wcid_driver: flag_from_raw(raw.use_wcid_driver),
            external_inf: flag_from_raw(raw.external_inf),
        }
    }
}

/// Preparation options whose strings are each exactly one C string come
/// back unchanged from the foreign options that stand for them: those can
/// be copied, and the copy is the options.
pub proof fn lemma_prepare_driver_options_round_trip(options: PrepareDriverOptionsView)
    requires
        options.well_formed(),
    ensures
        options.raw().readable(),
        options.raw().owned() == options,
{
    if let Some(s) = options.vendor_name {
        lemma_c_string_at_self(s);
    }
    if let Some(s) = options.device_guid {
        lemma_c_string_at_self(s);
    }
    if let Some(s) = options.cert_subject {
        lemma_c_string_at_self(s);
    }
}

/// What is handed to the foreign call that prepares a driver: the device
/// as a single foreign node, the two names as C strings, and the foreign
/// options. The node and the options borrow from the records that they stand
/// for. The names are held here: they live until the call has returned and
/// are dropped with this value, whatever the call returned.
pub struct PrepareDriverCall<'a> {
    pub device: RawDeviceInfo<'a>,
    pub path: CStrBuf,
    pub inf_name: CStrBuf,
    pub options: RawPrepareDriverOptions<'a>,
}

/// Makes ready the one foreign call that extracts the driver files for
/// `device` to `path` and, where that applies, writes the INF `inf_name`.
/// The device and the options are left as they were.
///
/// Neither name may hold a NUL byte.
pub fn prepare_driver_call<'a>(
    device: &'a mut DeviceInfo,
    path: &str,
    inf_name: &str,
    options: &'a mut PrepareDriverOptions,
) -> (call: PrepareDriverCall<'a>)
    requires
        !has_nul(path.spec_bytes()),
        !has_nul(inf_name.spec_bytes()),
    ensures
        *final(device) == *old(device),
        *final(options) == *old(options),
        call.device@ == seq![old(device)@.raw()],
        call.path@ == path.spec_bytes().push(0u8),
        call.inf_name@ == inf_name.spec_bytes().push(0u8),
        call.options@ == old(options)@.raw(),
{
    let raw = device.as_raw();
    let path = CStrBuf::from_str(path).unwrap();
    let inf_name = CStrBuf::from_str(inf_name).unwrap();
    let options = options.as_raw();
    PrepareDriverCall { device: raw, path, inf_name, options }
}

} // verus!
