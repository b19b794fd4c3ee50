use ip_intelligence::bindings::{
    fiftyoneDegreesConfigIpi, fiftyoneDegreesException, fiftyoneDegreesResourceManager,
    FIFTYONE_DEGREES_STATUS_NOT_SET, FIFTYONE_DEGREES_STATUS_SUCCESS,
};
use ip_intelligence::config::{copy_config, select, CallingConvention, ConfigBinding, Profile};
use ip_intelligence::encoding::{c_string, find_nul};
use ip_intelligence::error::EncodingError;

#[test]
fn c_string_appends_one_terminator() {
    assert_eq!(c_string("abc"), Ok(vec![97u8, 98, 99, 0]));
}

#[test]
fn c_string_of_empty_text_is_the_terminator() {
    assert_eq!(c_string(""), Ok(vec![0u8]));
}

#[test]
fn c_string_keeps_multibyte_text() {
    assert_eq!(c_string("é/ü"), Ok(vec![0xc3u8, 0xa9, 0x2f, 0xc3, 0xbc, 0]));
}

#[test]
fn c_string_rejects_an_embedded_zero_byte() {
    assert_eq!(c_string("a\0b"), Err(EncodingError { position: 1 }));
}

#[test]
fn c_string_reports_the_first_of_several_zero_bytes() {
    assert_eq!(c_string("é\0x\0"), Err(EncodingError { position: 2 }));
}

#[test]
fn c_string_rejects_a_leading_zero_byte() {
    assert_eq!(c_string("\0"), Err(EncodingError { position: 0 }));
}

#[test]
fn find_nul_finds_nothing_in_plain_bytes() {
    assert_eq!(find_nul(b"185.28.167.77"), None);
    assert_eq!(find_nul(b""), None);
}

#[test]
fn find_nul_finds_the_first_zero() {
    assert_eq!(find_nul(&[1, 2, 0, 3, 0]), Some(2));
}

#[test]
fn status_codes_have_the_engines_values() {
    assert_eq!(FIFTYONE_DEGREES_STATUS_SUCCESS, 0);
    assert_eq!(FIFTYONE_DEGREES_STATUS_NOT_SET, 26);
}

#[test]
fn zeroed_manager_has_no_active_resource() {
    let manager = fiftyoneDegreesResourceManager::zeroed();
    assert_eq!(manager.active, 0);
}

#[test]
fn fresh_exception_is_not_set() {
    let exception = fiftyoneDegreesException::not_set();
    assert_eq!(exception.status, 26);
    assert_eq!(exception.message, 0);
    assert_eq!(exception.file, 0);
    assert_eq!(exception.line, 0);
    assert!(!exception.is_set());
}

#[test]
fn exception_with_a_status_is_set() {
    let mut exception = fiftyoneDegreesException::not_set();
    exception.status = 0;
    assert!(exception.is_set());
    exception.status = 7;
    assert!(exception.is_set());
}

#[test]
fn default_profile_is_low_memory() {
    assert_eq!(Profile::default(), Profile::LowMemory);
}

#[test]
fn native_convention_binds_a_local_copy() {
    assert_eq!(
        select(Profile::InMemory, CallingConvention::Native),
        ConfigBinding::LocalCopy(Profile::InMemory)
    );
    assert_eq!(
        select(Profile::Balanced, CallingConvention::Native),
        ConfigBinding::LocalCopy(Profile::Balanced)
    );
}

#[test]
fn constrained_convention_binds_the_global() {
    assert_eq!(
        select(Profile::LowMemory, CallingConvention::Constrained),
        ConfigBinding::GlobalAddress(Profile::LowMemory)
    );
}

#[test]
fn binding_keeps_its_profile() {
    assert_eq!(ConfigBinding::LocalCopy(Profile::Balanced).profile(), Profile::Balanced);
    assert_eq!(ConfigBinding::GlobalAddress(Profile::InMemory).profile(), Profile::InMemory);
}

#[test]
fn copy_config_copies_every_byte() {
    let mut data = [0u8; 160];
    for (i, byte) in data.iter_mut().enumerate() {
        *byte = (i % 251) as u8;
    }
    let source = fiftyoneDegreesConfigIpi { _data: data };
    let copy = copy_config(&source);
    assert_eq!(copy, source);
    assert_eq!(copy._data[159], 159);
    assert_eq!(source._data, data);
}
