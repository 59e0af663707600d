use grob::{FillBufferAction, FillBufferError, RawToInternal, RvIsError, RvIsSize, ToResult};

#[test]
fn status_success_commits() {
    let mut needed: u32 = 7;
    assert_eq!(RvIsError::new(0).to_result(&mut needed), Ok(FillBufferAction::Commit));
    assert_eq!(needed, 7);
}

#[test]
fn status_success_without_data_is_no_data() {
    let mut needed: u32 = 0;
    assert_eq!(RvIsError::new(0).to_result(&mut needed), Ok(FillBufferAction::NoData));
    assert_eq!(needed, 0);
}

#[test]
fn status_insufficient_buffer_grows() {
    let mut needed: u32 = 100;
    assert_eq!(RvIsError::new(122).to_result(&mut needed), Ok(FillBufferAction::Grow));
    assert_eq!(needed, 100);
    let mut nothing: u32 = 0;
    assert_eq!(RvIsError::new(122).to_result(&mut nothing), Ok(FillBufferAction::Grow));
}

#[test]
fn status_buffer_overflow_grows() {
    let mut needed: u32 = 100;
    assert_eq!(RvIsError::new(111).to_result(&mut needed), Ok(FillBufferAction::Grow));
    assert_eq!(needed, 100);
}

#[test]
fn status_no_data_is_no_data() {
    let mut needed: u32 = 100;
    assert_eq!(RvIsError::new(232).to_result(&mut needed), Ok(FillBufferAction::NoData));
}

#[test]
fn every_other_status_is_a_terminal_error() {
    for code in [1u32, 5, 110, 112, 121, 123, 231, 233, 1228, u32::MAX] {
        let mut needed: u32 = 100;
        let outcome = RvIsError::new(code);
        assert!(outcome.is_defined(needed));
        assert_eq!(outcome.to_result(&mut needed), Err(FillBufferError::Os(code)));
        assert_eq!(needed, 100);
    }
}

#[test]
fn nothing_stored_after_success_is_no_data() {
    let mut needed: u32 = 10;
    assert_eq!(RvIsSize::new(0, 0).to_result(&mut needed), Ok(FillBufferAction::NoData));
    assert_eq!(needed, 10);
    let mut nothing: u32 = 0;
    assert_eq!(RvIsSize::new(0, 0).to_result(&mut nothing), Ok(FillBufferAction::NoData));
    assert_eq!(nothing, 0);
}

#[test]
fn nothing_stored_without_room_grows_to_one() {
    let mut needed: u32 = 0;
    assert_eq!(RvIsSize::new(0, 122).to_result(&mut needed), Ok(FillBufferAction::Grow));
    assert_eq!(needed, 1);
}

#[test]
fn nothing_stored_with_room_is_a_terminal_error() {
    let mut needed: u32 = 10;
    assert_eq!(RvIsSize::new(0, 1228).to_result(&mut needed), Err(FillBufferError::Os(1228)));
    assert_eq!(needed, 10);
}

#[test]
fn less_than_a_full_buffer_commits() {
    let mut needed: u32 = 10;
    assert_eq!(RvIsSize::new(9, 0).to_result(&mut needed), Ok(FillBufferAction::Commit));
    assert_eq!(needed, 9);
    let mut other: u32 = 10;
    assert_eq!(RvIsSize::new(1, 5).to_result(&mut other), Ok(FillBufferAction::Commit));
    assert_eq!(other, 1);
}

#[test]
fn a_full_buffer_grows_to_twice_what_was_stored() {
    let mut needed: u32 = 10;
    assert_eq!(RvIsSize::new(10, 122).to_result(&mut needed), Ok(FillBufferAction::Grow));
    assert_eq!(needed, 20);
    let mut large: u32 = 0x8000_0000;
    assert_eq!(RvIsSize::new(0x8000_0000, 122).to_result(&mut large), Ok(FillBufferAction::Grow));
    assert_eq!(large, u32::MAX);
}

#[test]
fn what_a_call_is_not_known_to_do_is_undefined() {
    assert!(RvIsSize::new(0, 5).is_defined(10));
    assert!(RvIsSize::new(9, 5).is_defined(10));
    assert!(RvIsSize::new(10, 122).is_defined(10));
    assert!(!RvIsSize::new(10, 0).is_defined(10));
    assert!(!RvIsSize::new(10, 111).is_defined(10));
    assert!(!RvIsSize::new(11, 122).is_defined(10));
    assert!(!RvIsSize::new(11, 0).is_defined(10));
}

#[test]
fn raw_os_error_is_the_code_of_a_terminal_error() {
    assert_eq!(FillBufferError::Os(1228).raw_os_error(), Some(1228));
    assert_eq!(FillBufferError::Undefined.raw_os_error(), None);
    assert_eq!(FillBufferError::Overrun.raw_os_error(), None);
    assert_eq!(FillBufferError::Exhausted.raw_os_error(), None);
}

#[test]
fn bytes_are_their_own_unit() {
    assert_eq!(<grob::Bytes as RawToInternal>::capacity_to_size(17), 17);
    assert_eq!(<grob::Bytes as RawToInternal>::size_to_capacity(17), 17);
    assert_eq!(<grob::Bytes as RawToInternal>::size_to_capacity(u32::MAX), u32::MAX);
}

#[test]
fn code_units_take_two_bytes() {
    assert_eq!(<windows::core::PWSTR as RawToInternal>::capacity_to_size(17), 8);
    assert_eq!(<windows::core::PWSTR as RawToInternal>::capacity_to_size(0), 0);
    assert_eq!(<windows::core::PWSTR as RawToInternal>::size_to_capacity(8), 16);
    assert_eq!(<windows::core::PWSTR as RawToInternal>::size_to_capacity(0x7fff_ffff), 0xffff_fffe);
    assert_eq!(<windows::core::PWSTR as RawToInternal>::size_to_capacity(0x8000_0000), u32::MAX);
}
