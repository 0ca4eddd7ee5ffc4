//! Safe, owned values for the records and options of the `libwdi` USB driver
//! installer, and the rules by which they are exchanged with the foreign
//! library: how its status codes are read, how a device list is collected and
//! released, and how option records travel in both directions.
//!
//! Nothing here calls the foreign library. Its structures are held as plain
//! values (see `raw`), and each operation is cut at its foreign calls: this
//! crate makes ready what goes into a call and judges what comes out of it.

pub mod cstr;
pub mod device;
pub mod driver_type;
pub mod error;
pub mod install;
pub mod list;
pub mod prepare;
pub mod raw;
pub mod session;
pub mod text;

pub use cstr::{CStrBuf, NulError};
pub use device::DeviceInfo;
pub use driver_type::{DriverType, DriverTypeConversionError};
pub use error::{status_result, CallFailure, Error};
pub use install::{install_driver_call, InstallDriverCall, InstallDriverOptions};
pub use list::{collect_list, CreateListOptions};
pub use prepare::{prepare_driver_call, PrepareDriverCall, PrepareDriverOptions};
pub use raw::{
    RawCreateListOptions, RawDeviceInfo, RawInstallDriverOptions, RawPrepareDriverOptions,
};
pub use session::{list_accepts, list_step, ListAction, ListEvent, ListState};
