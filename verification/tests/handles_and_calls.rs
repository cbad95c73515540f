use ppl_service::error::WinapiError;
use windows_sys::Win32::Storage::FileSystem as fs;
use windows_sys::Win32::System::Services as svc;
use ppl_service::handle::{Handle, SmartHandle};
use ppl_service::winapi::{
    bool_or_error, file_handle_or_error, handle_or_error, nul_position, status_or_error,
    text_or_error, Api,
    FILE_ATTRIBUTE_NORMAL, FILE_READ_DATA, FILE_SHARE_READ, INVALID_HANDLE_VALUE, OPEN_EXISTING,
    SERVICE_DEMAND_START, SERVICE_ERROR_NORMAL, SERVICE_WIN32_OWN_PROCESS, SC_MANAGER_ALL_ACCESS, SERVICE_ALL_ACCESS,
    SERVICE_CONFIG_LAUNCH_PROTECTED, SERVICE_LAUNCH_PROTECTED_ANTIMALWARE_LIGHT, SERVICE_RUNNING,
    SERVICE_STOPPED,
};

fn call_error(e: &WinapiError) -> (String, u32) {
    match e {
        WinapiError::WinapiCallError(c) => (c.api_name().to_string(), c.error_code()),
        _ => panic!("not a call error"),
    }
}

#[test]
fn handles_hold_their_value() {
    let null = Handle::new();
    assert!(null.is_null());
    assert!(!null.needs_closing());
    assert_eq!(null.raw(), 0);
    let h = Handle::from_raw(0x1234);
    assert_eq!(h.raw(), 0x1234);
    assert!(h.needs_closing());
    let h2: Handle = 77isize.into();
    assert_eq!(h2.raw(), 77);
    assert_eq!(SmartHandle::new().get_raw(), 0);
    let shared: SmartHandle = Handle::from_raw(9).into();
    let copy = shared.clone();
    assert_eq!(shared.get_raw(), 9);
    assert_eq!(copy.get_raw(), 9);
    let direct: SmartHandle = 11isize.into();
    assert_eq!(direct.get_raw(), 11);
}

#[test]
fn null_handle_is_a_failure_of_the_call() {
    let e = handle_or_error(Api::OpenScManager, 0, 5).err().unwrap();
    assert_eq!(call_error(&e), ("OpenSCManagerA".to_string(), 5));
    let e = handle_or_error(Api::OpenService, 0, 1060).err().unwrap();
    assert_eq!(call_error(&e), ("OpenServiceA".to_string(), 1060));
    let e = handle_or_error(Api::CreateService, 0, 1073).err().unwrap();
    assert_eq!(call_error(&e), ("CreateServiceA".to_string(), 1073));
    let h = handle_or_error(Api::OpenScManager, 0x40, 0).ok().unwrap();
    assert_eq!(h.raw(), 0x40);
}

#[test]
fn invalid_file_handle_is_a_failure_of_create_file() {
    let e = file_handle_or_error(INVALID_HANDLE_VALUE, 2).err().unwrap();
    assert_eq!(call_error(&e), ("CreateFileA".to_string(), 2));
    // CreateFileA signals failure only with INVALID_HANDLE_VALUE: null passes.
    assert_eq!(file_handle_or_error(0, 2).ok().unwrap().raw(), 0);
    assert_eq!(file_handle_or_error(0x88, 0).ok().unwrap().raw(), 0x88);
}

#[test]
fn false_is_a_failure_of_the_call() {
    let e = bool_or_error(Api::InstallElamCertificateInfo, 0, 87).err().unwrap();
    assert_eq!(call_error(&e), ("InstallELAMCertificateInfo".to_string(), 87));
    let e = bool_or_error(Api::ChangeServiceConfig2, 0, 5).err().unwrap();
    assert_eq!(call_error(&e), ("ChangeServiceConfig2".to_string(), 5));
    let e = bool_or_error(Api::DeleteService, 0, 1072).err().unwrap();
    assert_eq!(call_error(&e), ("DeleteService".to_string(), 1072));
    let e = bool_or_error(Api::StartService, 0, 1056).err().unwrap();
    assert_eq!(call_error(&e), ("StartServiceA".to_string(), 1056));
    assert!(bool_or_error(Api::DeleteService, 1, 0).is_ok());
}

#[test]
fn status_calls_give_the_current_state() {
    assert_eq!(status_or_error(Api::QueryServiceStatusEx, 1, SERVICE_RUNNING, 0).ok(), Some(4));
    let e = status_or_error(Api::ControlService, 0, SERVICE_RUNNING, 1062).err().unwrap();
    assert_eq!(call_error(&e), ("ControlService".to_string(), 1062));
    let e = status_or_error(Api::QueryServiceStatusEx, 0, 0, 6).err().unwrap();
    assert_eq!(call_error(&e), ("QueryServiceStatusEx".to_string(), 6));
    assert_eq!(Api::CreateFile.name(), "CreateFileA");
}

#[test]
fn constants_match_the_windows_headers() {
    assert_eq!(SC_MANAGER_ALL_ACCESS, svc::SC_MANAGER_ALL_ACCESS);
    assert_eq!(SERVICE_ALL_ACCESS, svc::SERVICE_ALL_ACCESS);
    assert_eq!(SERVICE_STOPPED, svc::SERVICE_STOPPED);
    assert_eq!(SERVICE_RUNNING, svc::SERVICE_RUNNING);
    assert_eq!(SERVICE_CONFIG_LAUNCH_PROTECTED, svc::SERVICE_CONFIG_LAUNCH_PROTECTED);
    assert_eq!(
        SERVICE_LAUNCH_PROTECTED_ANTIMALWARE_LIGHT,
        svc::SERVICE_LAUNCH_PROTECTED_ANTIMALWARE_LIGHT
    );
    assert_eq!(SERVICE_WIN32_OWN_PROCESS, svc::SERVICE_WIN32_OWN_PROCESS);
    assert_eq!(SERVICE_DEMAND_START, svc::SERVICE_DEMAND_START);
    assert_eq!(SERVICE_ERROR_NORMAL, svc::SERVICE_ERROR_NORMAL);
    assert_eq!(FILE_READ_DATA, fs::FILE_READ_DATA);
    assert_eq!(FILE_SHARE_READ, fs::FILE_SHARE_READ);
    assert_eq!(OPEN_EXISTING, fs::OPEN_EXISTING);
    assert_eq!(FILE_ATTRIBUTE_NORMAL, fs::FILE_ATTRIBUTE_NORMAL);
    assert_eq!(
        INVALID_HANDLE_VALUE,
        windows_sys::Win32::Foundation::INVALID_HANDLE_VALUE as isize
    );
}

#[test]
fn first_nul_is_found() {
    assert_eq!(nul_position(b"svc"), None);
    assert_eq!(nul_position(b""), None);
    assert_eq!(nul_position(b"\0abc"), Some(0));
    assert_eq!(nul_position(b"ab\0c\0"), Some(2));
    assert_eq!(nul_position("ü\0".as_bytes()), Some(2));
}

#[test]
fn text_with_nul_is_refused_with_its_position() {
    assert!(text_or_error(b"my-service").is_ok());
    match text_or_error(b"my\0service") {
        Err(WinapiError::NullError(p)) => assert_eq!(p, 2),
        _ => panic!("expected a NUL error"),
    }
    let e = text_or_error(b"a\0b").err().unwrap();
    assert_eq!(e.to_message(None), "nul byte found in provided data at position: 1");
}

#[test]
fn clones_of_a_shared_handle_hold_the_same_handle() {
    let shared: SmartHandle = 0x1234isize.into();
    let c1 = shared.clone();
    let c2 = c1.clone();
    assert_eq!(shared.get_raw(), 0x1234);
    assert_eq!(c1.get_raw(), 0x1234);
    assert_eq!(c2.get_raw(), 0x1234);
}
