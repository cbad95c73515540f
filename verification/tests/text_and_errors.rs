use ppl_service::error::{WinapiCallError, WinapiError};
use ppl_service::text::{decimal, hex8};

#[test]
fn hex8_pads_to_eight_lower_case_digits() {
    assert_eq!(hex8(0), "0x00000000");
    assert_eq!(hex8(5), "0x00000005");
    assert_eq!(hex8(0xDEADBEEF), "0xdeadbeef");
    assert_eq!(hex8(u32::MAX), "0xffffffff");
    assert_eq!(hex8(0x0000_1f2a), format!("0x{:08x}", 0x0000_1f2au32));
}

#[test]
fn hex8_reads_back_as_the_code() {
    for v in [0u32, 1, 15, 16, 255, 4096, 0x8007_0005, u32::MAX] {
        let s = hex8(v);
        assert_eq!(s.len(), 10);
        assert_eq!(u32::from_str_radix(&s[2..], 16).unwrap(), v);
    }
}

#[test]
fn decimal_has_no_leading_zeros() {
    assert_eq!(decimal(0), "0");
    assert_eq!(decimal(4), "4");
    assert_eq!(decimal(10), "10");
    assert_eq!(decimal(1234567890), "1234567890");
    assert_eq!(decimal(u64::MAX), u64::MAX.to_string());
}

#[test]
fn call_error_text_names_call_code_and_message() {
    let e = WinapiCallError::new("OpenSCManagerA", 5);
    assert_eq!(e.api_name(), "OpenSCManagerA");
    assert_eq!(e.error_code(), 5);
    assert_eq!(
        e.describe(Some("Access is denied.".to_string())),
        "OpenSCManagerA error. Code: 0x00000005, msg: Access is denied."
    );
    assert_eq!(e.describe(None), "OpenSCManagerA error. Code: 0x00000005, msg: ");
}

#[test]
fn each_error_variant_has_its_text() {
    let call: WinapiError = WinapiCallError::new("DeleteService", 0x430).into();
    assert_eq!(call.error_code(), Some(0x430));
    assert_eq!(
        call.to_message(Some("The specified service has been marked for deletion.".to_string())),
        "DeleteService error. Code: 0x00000430, msg: The specified service has been marked for deletion."
    );
    let nul = WinapiError::NullError(3);
    assert_eq!(nul.error_code(), None);
    assert_eq!(nul.to_message(None), "nul byte found in provided data at position: 3");
    let io = WinapiError::IoError("No such file or directory (os error 2)".to_string());
    assert_eq!(io.error_code(), None);
    assert_eq!(io.to_message(Some("ignored".to_string())), "No such file or directory (os error 2)");
}

#[test]
fn errors_can_be_debug_printed() {
    let e: WinapiError = WinapiCallError::new("OpenServiceA", 1060).into();
    let text = format!("{:?}", e);
    assert!(text.contains("OpenServiceA"));
    assert!(text.contains("1060"));
}
