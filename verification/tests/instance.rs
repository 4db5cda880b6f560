use inochi2d::error::{Error, ErrorRecord};
use inochi2d::instance::{Capabilities, Inochi2D};

#[test]
fn create_wraps_a_successful_initialisation() {
    let capabilities = Capabilities { rendering_backend: true, diagnostics: false };
    let instance = Inochi2D::create(true, capabilities).expect("the native context was set up");
    assert_eq!(instance.capabilities(), capabilities);
    let other = Capabilities { rendering_backend: false, diagnostics: true };
    let instance = Inochi2D::create(true, other).expect("the native context was set up");
    assert_eq!(instance.capabilities(), other);
}

#[test]
fn create_reports_a_failed_initialisation() {
    let capabilities = Capabilities { rendering_backend: true, diagnostics: true };
    let instance = Inochi2D::create(false, capabilities);
    assert_eq!(instance.err(), Some(Error::InitializationError));
}

#[test]
fn each_failure_has_its_message() {
    assert_eq!(Error::InitializationError.message(), "native context setup failed");
    assert_eq!(
        Error::Unavailable.message(),
        "unknown error — native binding inconsistency"
    );
    assert_eq!(Error::Undecodable.message(), "unknown error — text decoding failed");
    assert_eq!(
        Error::Native(String::from("Could not open file")).message(),
        "Could not open file"
    );
}

#[test]
fn the_message_of_a_native_failure_is_the_record() {
    let record = ErrorRecord::Payload(b"Out of memory".to_vec());
    assert_eq!(Error::from_error_information(record).message(), "Out of memory");
    assert_eq!(
        Error::from_error_information(ErrorRecord::Absent).message(),
        Error::Unavailable.message()
    );
    assert_eq!(
        Error::from_error_information(ErrorRecord::Payload(vec![0x80])).message(),
        Error::Undecodable.message()
    );
}
