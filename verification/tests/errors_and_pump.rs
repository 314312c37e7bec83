use win_win::pump::{accelerated, retrieved, Pump};
use win_win::{Error, Handle};

#[test]
fn a_failed_registration_names_itself() {
    assert_eq!(Error::RegisterClassFailed.message(), "RegisterClass failed");
}

#[test]
fn a_failed_creation_names_itself() {
    assert_eq!(Error::WindowCreationFailed.message(), "CreateWindow failed");
}

#[test]
fn a_failure_code_is_written_in_base_sixteen() {
    assert_eq!(Error::Hresult(0).message(), "HRESULT 0x0");
    assert_eq!(Error::Hresult(9).message(), "HRESULT 0x9");
    assert_eq!(Error::Hresult(10).message(), "HRESULT 0xa");
    assert_eq!(Error::Hresult(15).message(), "HRESULT 0xf");
    assert_eq!(Error::Hresult(16).message(), "HRESULT 0x10");
    assert_eq!(Error::Hresult(255).message(), "HRESULT 0xff");
    assert_eq!(Error::Hresult(0x1234_ABCD).message(), "HRESULT 0x1234abcd");
    assert_eq!(Error::Hresult(i32::MAX).message(), "HRESULT 0x7fffffff");
}

#[test]
fn a_negative_failure_code_is_written_by_its_bits() {
    assert_eq!(Error::Hresult(-1).message(), "HRESULT 0xffffffff");
    assert_eq!(Error::Hresult(i32::MIN).message(), "HRESULT 0x80000000");
    assert_eq!(Error::Hresult(-2147467259).message(), "HRESULT 0x80004005");
    assert_eq!(Error::Hresult(-2147024809).message(), "HRESULT 0x80070057");
}

#[test]
fn a_failure_code_reads_as_the_formatter_writes_it() {
    for code in [0, 1, -1, 4096, -4096, 0x0BAD_F00D, i32::MIN, i32::MAX] {
        assert_eq!(Error::Hresult(code).message(), format!("HRESULT 0x{:x}", code));
    }
}

#[test]
fn errors_compare_by_kind_and_code() {
    assert_eq!(Error::Hresult(5), Error::Hresult(5));
    assert_ne!(Error::Hresult(5), Error::Hresult(6));
    assert_ne!(Error::RegisterClassFailed, Error::WindowCreationFailed);
}

#[test]
fn the_quit_message_ends_the_loop() {
    assert_eq!(retrieved(0, Handle::null()), Pump::Exit(0));
    assert_eq!(retrieved(0, Handle::from_raw(8)), Pump::Exit(0));
}

#[test]
fn a_retrieval_error_ends_the_loop() {
    assert_eq!(retrieved(-1, Handle::null()), Pump::Exit(-1));
    assert_eq!(retrieved(i32::MIN, Handle::from_raw(8)), Pump::Exit(i32::MIN));
}

#[test]
fn without_accelerators_a_message_is_dispatched() {
    assert_eq!(retrieved(1, Handle::null()), Pump::Dispatch);
    assert_eq!(retrieved(i32::MAX, Handle::null()), Pump::Dispatch);
}

#[test]
fn with_accelerators_a_message_is_offered_to_them_first() {
    assert_eq!(retrieved(1, Handle::from_raw(8)), Pump::Accelerate);
}

#[test]
fn a_message_the_accelerators_did_not_take_is_dispatched() {
    assert_eq!(accelerated(0), Pump::Dispatch);
}

#[test]
fn a_message_the_accelerators_took_is_done() {
    assert_eq!(accelerated(1), Pump::Next);
    assert_eq!(accelerated(-1), Pump::Next);
}
