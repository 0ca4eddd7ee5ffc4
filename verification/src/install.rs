//! Installing a driver: the options of the installation, their exchange with
//! the foreign options, and what is handed to the foreign call.

use vstd::prelude::*;
use vstd::string::*;

use crate::cstr::{has_nul, CStrBuf};
use crate::device::DeviceInfo;
use crate::raw::{flag_from_raw, flag_to_raw, RawDeviceInfo, RawInstallDriverOptions};

verus! {

/// How a driver is installed for a device.
#[derive(Debug, PartialEq, Eq)]
pub struct InstallDriverOptions {
    /// Handle of the window that is to own the progress dialog, as its
    /// address; 0 for no window, and then no dialog is shown. The handle is
    /// passed on as it is and never looked into.
    hwnd: usize,
    /// Install a filter driver instead of the regular driver.
    install_filter_driver: bool,
    /// Number of milliseconds to wait for any pending installations; 0 for
    /// no timeout.
    pending_install_timeout: u32,
}

/// Installation options as plain values.
pub struct InstallDriverOptionsView {
    pub hwnd: usize,
    pub install_filter_driver: bool,
    pub pending_install_timeout: u32,
}

impl View for InstallDriverOptions {
    type V = InstallDriverOptionsView;

    closed spec fn view(&self) -> InstallDriverOptionsView {
        InstallDriverOptionsView {
            hwnd: self.hwnd,
            install_filter_driver: self.install_filter_driver,
            pending_install_timeout: self.pending_install_timeout,
        }
    }
}

impl InstallDriverOptionsView {
    /// The options that a new record holds: no window, the regular driver,
    /// no timeout.
    pub open spec fn baseline() -> InstallDriverOptionsView {
        InstallDriverOptionsView {
            hwnd: 0,
            install_filter_driver: false,
            pending_install_timeout: 0,
        }
    }

    /// The foreign options that stand for these: the window handle and the
    /// timeout as they are, the flag as 1 or 0.
    pub open spec fn raw(self) -> RawInstallDriverOptions {
        RawInstallDriverOptions {
            hwnd: self.hwnd,
            install_filter_driver: flag_to_raw(self.install_filter_driver),
            pending_install_timeout: self.pending_install_timeout,
        }
    }

    /// The options that foreign options stand for: the window handle and
    /// the timeout as they are, the flag set unless its integer is 0.
    pub open spec fn of_raw(raw: RawInstallDriverOptions) -> InstallDriverOptionsView {
        InstallDriverOptionsView {
            hwnd: raw.hwnd,
            install_filter_driver: flag_from_raw(raw.install_filter_driver),
            pending_install_timeout: raw.pending_install_timeout,
        }
    }
}

impl Default for InstallDriverOptions {
    /// The baseline: no window, the regular driver, no timeout.
    fn default() -> (r: Self)
        ensures
            r@ == InstallDriverOptionsView::baseline(),
    {
        InstallDriverOptions { hwnd: 0, install_filter_driver: false, pending_install_timeout: 0 }
    }
}

impl Clone for InstallDriverOptions {
    fn clone(&self) -> (r: Self)
        ensures
            r@ == self@,
    {
        InstallDriverOptions {
            hwnd: self.hwnd,
            install_filter_driver: self.install_filter_driver,
            pending_install_timeout: self.pending_install_timeout,
        }
    }
}

impl InstallDriverOptions {
    /// The foreign options that stand for these; this record is left as it
    /// was. Read back, they give this record.
    pub fn as_raw(&mut self) -> (raw: RawInstallDriverOptions)
        ensures
            *final(self) == *old(self),
            raw == old(self)@.raw(),
            InstallDriverOptionsView::of_raw(raw) == old(self)@,
    {
        RawInstallDriverOptions {
            hwnd: self.hwnd,
            install_filter_driver: flag_to_raw(self.install_filter_driver),
            pending_install_timeout: self.pending_install_timeout,
        }
    }

    /// The options that foreign options stand for.
    pub fn from_raw(other: &RawInstallDriverOptions) -> (options: InstallDriverOptions)
        ensures
            options@ == InstallDriverOptionsView::of_raw(*other),
    {
        InstallDriverOptions {
            hwnd: other.hwnd,
            install_filter_driver: flag_from_raw(other.install_filter_driver),
            pending_install_timeout: other.pending_install_timeout,
        }
    }
}

/// Installation options come back unchanged from the foreign options that
/// stand for them.
pub proof fn lemma_install_driver_options_round_trip(options: InstallDriverOptionsView)
    ensures
        InstallDriverOptionsView::of_raw(options.raw()) == options,
{
}

/// What is handed to the foreign call that installs a driver: the device
/// as a single foreign node, the two names as C strings, and the foreign
/// options. The node borrows from the record that it stands for. The names
/// are held here: they live until the call has returned and are dropped with
/// this value, whatever the call returned.
pub struct InstallDriverCall<'a> {
    pub device: RawDeviceInfo<'a>,
    pub path: CStrBuf,
    pub inf_name: CStrBuf,
    pub options: RawInstallDriverOptions,
}

/// Makes ready the one foreign call that installs the driver found under
/// `path` by the INF `inf_name` for `device`. The device and the options
/// are left as they were.
///
/// Neither name may hold a NUL byte.
pub fn install_driver_call<'a>(
    device: &'a mut DeviceInfo,
    path: &str,
    inf_name: &str,
    options: &mut InstallDriverOptions,
) -> (call: InstallDriverCall<'a>)
    requires
        !has_nul(path.spec_bytes()),
        !has_nul(inf_name.spec_bytes()),
    ensures
        *final(device) == *old(device),
        *final(options) == *old(options),
        call.device@ == seq![old(device)@.raw()],
        call.path@ == path.spec_bytes().push(0u8),
        call.inf_name@ == inf_name.spec_bytes().push(0u8),
        call.options == old(options)@.raw(),
{
    let raw = device.as_raw();
    let path = CStrBuf::from_str(path).unwrap();
    let inf_name = CStrBuf::from_str(inf_name).unwrap();
    let options = options.as_raw();
    InstallDriverCall { device: raw, path, inf_name, options }
}

} // verus!
