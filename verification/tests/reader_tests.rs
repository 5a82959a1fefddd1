use pty_session::errors::SessionError;
use pty_session::reader::classify_read;
use pty_session::reader::fault_error;
use pty_session::reader::reader_continues;
use pty_session::reader::ReadClass;

#[test]
fn bytes_are_data() {
    assert_eq!(classify_read(17, false), ReadClass::Data);
    assert_eq!(classify_read(1, false), ReadClass::Data);
}

#[test]
fn zero_length_read_is_end_of_stream() {
    assert_eq!(classify_read(0, false), ReadClass::EndOfStream);
}

#[test]
fn failed_read_is_a_fault_whatever_the_count() {
    assert_eq!(classify_read(0, true), ReadClass::Fault);
    assert_eq!(classify_read(9, true), ReadClass::Fault);
}

#[test]
fn only_a_fault_is_surfaced_as_an_error() {
    assert_eq!(fault_error(&ReadClass::Fault), Some(SessionError::IoFault));
    assert_eq!(fault_error(&ReadClass::EndOfStream), None);
    assert_eq!(fault_error(&ReadClass::Data), None);
}

#[test]
fn only_data_keeps_the_reader_running() {
    assert!(reader_continues(&ReadClass::Data));
    assert!(!reader_continues(&ReadClass::EndOfStream));
    assert!(!reader_continues(&ReadClass::Fault));
}
