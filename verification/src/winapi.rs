//! The Windows API calls that the procedures make, and how their raw
//! results are read: a handle, a `BOOL` or a service status becomes either
//! a value or a [`WinapiError`] that names the call.

use vstd::prelude::*;

use crate::error::{CallErrorView, ErrorView, WinapiCallError, WinapiError};
use crate::handle::Handle;

verus! {

/// Full access to the service control manager (`SC_MANAGER_ALL_ACCESS`).
pub const SC_MANAGER_ALL_ACCESS: u32 = 0xF003F;
/// Full access to a service (`SERVICE_ALL_ACCESS`).
pub const SERVICE_ALL_ACCESS: u32 = 0xF01FF;
/// The state of a stopped service (`SERVICE_STOPPED`).
pub const SERVICE_STOPPED: u32 = 1;
/// The state of a running service (`SERVICE_RUNNING`).
pub const SERVICE_RUNNING: u32 = 4;
/// The configuration level that sets a service's launch protection
/// (`SERVICE_CONFIG_LAUNCH_PROTECTED`).
pub const SERVICE_CONFIG_LAUNCH_PROTECTED: u32 = 12;
/// Launch protection as an anti-malware light process
/// (`SERVICE_LAUNCH_PROTECTED_ANTIMALWARE_LIGHT`).
pub const SERVICE_LAUNCH_PROTECTED_ANTIMALWARE_LIGHT: u32 = 3;
/// The control code that asks the service to drop its own protection.
pub const UNPROTECT_SELF: u32 = 0x80;
/// Service type of a service that runs in its own process
/// (`SERVICE_WIN32_OWN_PROCESS`).
pub const SERVICE_WIN32_OWN_PROCESS: u32 = 0x10;
/// A service started on demand (`SERVICE_DEMAND_START`).
pub const SERVICE_DEMAND_START: u32 = 3;
/// Startup errors of the service are logged and startup goes on
/// (`SERVICE_ERROR_NORMAL`).
pub const SERVICE_ERROR_NORMAL: u32 = 1;
/// Access to read a file's data (`FILE_READ_DATA`).
pub const FILE_READ_DATA: u32 = 1;
/// Others may read the file while it is open (`FILE_SHARE_READ`).
pub const FILE_SHARE_READ: u32 = 1;
/// Open the file only if it exists (`OPEN_EXISTING`).
pub const OPEN_EXISTING: u32 = 3;
/// A file with no other attributes (`FILE_ATTRIBUTE_NORMAL`).
pub const FILE_ATTRIBUTE_NORMAL: u32 = 0x80;
/// The address value of `INVALID_HANDLE_VALUE`.
pub const INVALID_HANDLE_VALUE: isize = -1;

/// The Windows API functions whose failures the procedures report.
#[derive(PartialEq, Eq, Structural, Clone, Copy)]
pub enum Api {
    CreateFile,
    InstallElamCertificateInfo,
    OpenScManager,
    OpenService,
    QueryServiceStatusEx,
    CreateService,
    ChangeServiceConfig2,
    ControlService,
    StartService,
    DeleteService,
}

/// The name under which a failure of the call is reported.
pub open spec fn api_name(api: Api) -> Seq<char> {
    match api {
        Api::CreateFile => "CreateFileA"@,
        Api::InstallElamCertificateInfo => "InstallELAMCertificateInfo"@,
        Api::OpenScManager => "OpenSCManagerA"@,
        Api::OpenService => "OpenServiceA"@,
        Api::QueryServiceStatusEx => "QueryServiceStatusEx"@,
        Api::CreateService => "CreateServiceA"@,
        Api::ChangeServiceConfig2 => "ChangeServiceConfig2"@,
        Api::ControlService => "ControlService"@,
        Api::StartService => "StartServiceA"@,
        Api::DeleteService => "DeleteService"@,
    }
}

/// The error that reports a failure of `api` with the code `last_error`.
pub open spec fn failure(api: Api, last_error: u32) -> ErrorView {
    ErrorView::Call(CallErrorView { api_name: api_name(api), error_code: last_error })
}

impl Api {
    pub fn name(&self) -> (s: &'static str)
        ensures
            s@ == api_name(*self),
    {
        match self {
            Api::CreateFile => "CreateFileA",
            Api::InstallElamCertificateInfo => "InstallELAMCertificateInfo",
            Api::OpenScManager => "OpenSCManagerA",
            Api::OpenService => "OpenServiceA",
            Api::QueryServiceStatusEx => "QueryServiceStatusEx",
            Api::CreateService => "CreateServiceA",
            Api::ChangeServiceConfig2 => "ChangeServiceConfig2",
            Api::ControlService => "ControlService",
            Api::StartService => "StartServiceA",
            Api::DeleteService => "DeleteService",
        }
    }

    /// The error for a failure of this call with the code `last_error`.
    pub fn failed(&self, last_error: u32) -> (e: WinapiError)
        ensures
            e@ == failure(*self, last_error),
    {
        WinapiError::WinapiCallError(WinapiCallError::new(self.name(), last_error))
    }
}

/// Whether `i` is the position of the first zero byte of `bytes`.
pub open spec fn is_first_nul(bytes: Seq<u8>, i: int) -> bool {
    &&& 0 <= i < bytes.len()
    &&& bytes[i] == 0
    &&& forall|j: int| 0 <= j < i ==> bytes[j] != 0
}

/// The position of the first zero byte of `bytes`, if there is one.
pub fn nul_position(bytes: &[u8]) -> (r: Option<usize>)
    ensures
        match r {
            Some(i) => is_first_nul(bytes@, i as int),
            None => forall|j: int| 0 <= j < bytes@.len() ==> bytes@[j] != 0,
        },
{
    let mut i: usize = 0;
    while i < bytes.len()
        invariant
            i <= bytes@.len(),
            forall|j: int| 0 <= j < i ==> bytes@[j] != 0,
        decreases bytes@.len() - i,
    {
        if bytes[i] == 0 {
            return Some(i);
        }
        i = i + 1;
    }
    None
}

/// Checks a text (as its bytes) that is handed to a Windows call as a
/// C string: it must hold no NUL character.
pub fn text_or_error(bytes: &[u8]) -> (r: Result<(), WinapiError>)
    ensures
        match r {
            Ok(_) => forall|j: int| 0 <= j < bytes@.len() ==> bytes@[j] != 0,
            Err(e) => exists|i: int| is_first_nul(bytes@, i) && e@ == ErrorView::Null(i as usize),
        },
{
    match nul_position(bytes) {
        Some(i) => Err(WinapiError::NullError(i)),
        None => Ok(()),
    }
}

/// Reads the result of a call that returns a handle and signals failure
/// with the null handle (`OpenSCManagerA`, `OpenServiceA`,
/// `CreateServiceA`).
pub fn handle_or_error(api: Api, raw: isize, last_error: u32) -> (r: Result<Handle, WinapiError>)
    ensures
        match r {
            Ok(h) => raw != 0 && h.spec_raw() == raw,
            Err(e) => raw == 0 && e@ == failure(api, last_error),
        },
{
    if raw == 0 {
        Err(api.failed(last_error))
    } else {
        Ok(Handle::from_raw(raw))
    }
}

/// Reads the result of `CreateFileA`, which signals failure with
/// `INVALID_HANDLE_VALUE`.
pub fn file_handle_or_error(raw: isize, last_error: u32) -> (r: Result<Handle, WinapiError>)
    ensures
        match r {
            Ok(h) => raw != INVALID_HANDLE_VALUE && h.spec_raw() == raw,
            Err(e) => raw == INVALID_HANDLE_VALUE && e@ == failure(Api::CreateFile, last_error),
        },
{
    if raw == INVALID_HANDLE_VALUE {
        Err(Api::CreateFile.failed(last_error))
    } else {
        Ok(Handle::from_raw(raw))
    }
}

/// Reads the `BOOL` that a call returns: `FALSE` (zero) is a failure.
pub fn bool_or_error(api: Api, status: i32, last_error: u32) -> (r: Result<(), WinapiError>)
    ensures
        match r {
            Ok(_) => status != 0,
            Err(e) => status == 0 && e@ == failure(api, last_error),
        },
{
    if status == 0 {
        Err(api.failed(last_error))
    } else {
        Ok(())
    }
}

/// Reads the result of a call that fills in a service status
/// (`QueryServiceStatusEx`, `ControlService`): on success, the service's
/// current state.
pub fn status_or_error(api: Api, status: i32, current_state: u32, last_error: u32) -> (r: Result<u32, WinapiError>)
    ensures
        match r {
            Ok(s) => status != 0 && s == current_state,
            Err(e) => status == 0 && e@ == failure(api, last_error),
        },
{
    if status == 0 {
        Err(api.failed(last_error))
    } else {
        Ok(current_state)
    }
}

} // verus!
