use grob::{
    Bytes, GrowForSmallBinary, GrowForStoredIsReturned, GrowableBuffer, RvIsError, RvIsSize,
    StackBuffer, ToResult, FLOOR_FOR_PATHS,
};
use windows::Win32::Foundation::{ERROR_BUFFER_OVERFLOW, ERROR_SUCCESS};

const SIZE_OF_U128: u32 = 16;
const LARGE_INTEGER: u128 = 12345678901234567890123456789012345678_u128;

fn mimic_os_binary(buffer: &mut [u8], size: &mut u32) -> u32 {
    let available = *size;
    *size = SIZE_OF_U128;
    if available >= SIZE_OF_U128 {
        buffer[..16].copy_from_slice(&LARGE_INTEGER.to_le_bytes());
        ERROR_SUCCESS.0
    } else {
        ERROR_BUFFER_OVERFLOW.0
    }
}

#[test]
fn zero_sized_stack_buffer() {
    let mut initial_buffer = StackBuffer::<0>::new();
    let grow_strategy = GrowForSmallBinary::new();
    let mut growable_buffer =
        GrowableBuffer::<_, _, Bytes>::new(&mut initial_buffer, &grow_strategy);
    loop {
        let mut argument = growable_buffer.argument();
        let (buffer, size) = argument.parts();
        let rv = RvIsError::new(mimic_os_binary(buffer, size));
        let result = rv.to_result(&mut argument).unwrap();
        if argument.apply(result) {
            break;
        }
    }
    let frozen_buffer = growable_buffer.freeze();
    assert!(frozen_buffer.size() == SIZE_OF_U128);
    let p = frozen_buffer.pointer().unwrap();
    assert!(!p.is_empty());
    assert!(u128::from_le_bytes(p[..16].try_into().unwrap()) == LARGE_INTEGER);
}

fn mimic_os_text(lpfilename: &mut [u8]) -> (u32, u32) {
    if lpfilename.len() >= 4 {
        lpfilename[..2].copy_from_slice(&('?' as u16).to_le_bytes());
        lpfilename[2..4].copy_from_slice(&0u16.to_le_bytes());
        (2, ERROR_SUCCESS.0)
    } else {
        (0, ERROR_SUCCESS.0)
    }
}

#[test]
fn miri_zero_sized_stack_buffer() {
    let mut initial_buffer = StackBuffer::<0>::new();
    let grow_strategy = GrowForStoredIsReturned::<FLOOR_FOR_PATHS>::new();
    let mut growable_buffer =
        GrowableBuffer::<_, _, windows::core::PWSTR>::new(&mut initial_buffer, &grow_strategy);
    loop {
        let mut argument = growable_buffer.argument();
        let (stored, last_error) = mimic_os_text(argument.pointer());
        let rv = RvIsSize::new(stored, last_error);
        let result = rv.to_result(&mut argument).unwrap();
        if argument.apply(result) {
            break;
        }
    }
}
