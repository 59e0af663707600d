use grob::buffer::{HeapBuffer, HeapLedger};
use grob::{
    winapi_binary, winapi_generic, Bytes, FillBufferAction, FillBufferError, GrowByDoubleWithNull,
    GrowForSmallBinary, GrowForStoredIsReturned, GrowToNearestNibble, GrowableBuffer, NeededSize,
    ReadBuffer, RvIsError, RvIsSize, StackBuffer, WriteBuffer, ALIGNMENT, CAPACITY_FOR_NAMES,
    CAPACITY_FOR_PATHS, FLOOR_FOR_PATHS, SIZE_OF_WCHAR,
};
use windows::Win32::Foundation::MAX_PATH;
use windows::Win32::NetworkManagement::NetManagement::UNLEN;
use windows::Win32::System::SystemServices::MEMORY_ALLOCATION_ALIGNMENT;

#[test]
fn constants_have_their_values() {
    assert_eq!(ALIGNMENT, 16);
    assert_eq!(SIZE_OF_WCHAR, 2);
    assert_eq!(CAPACITY_FOR_NAMES, 530);
    assert_eq!(CAPACITY_FOR_PATHS, 536);
    assert_eq!(FLOOR_FOR_PATHS, 536);
}

#[test]
fn constants_agree_with_the_platform() {
    assert_eq!(ALIGNMENT, MEMORY_ALLOCATION_ALIGNMENT as usize);
    assert_eq!(CAPACITY_FOR_NAMES, (UNLEN as usize + 1) * SIZE_OF_WCHAR as usize + ALIGNMENT);
    assert_eq!(CAPACITY_FOR_PATHS, MAX_PATH as usize * SIZE_OF_WCHAR as usize + ALIGNMENT);
    assert_eq!(FLOOR_FOR_PATHS, CAPACITY_FOR_PATHS as u64);
}

#[test]
fn a_buffer_below_the_alignment_offers_nothing() {
    let mut empty = StackBuffer::<0>::new();
    assert_eq!(empty.capacity(), 0);
    assert_eq!(empty.write_buffer().len(), 0);
    assert!(empty.read_buffer().0.is_none());
    let mut small = StackBuffer::<15>::new();
    assert_eq!(small.capacity(), 0);
    assert_eq!(small.write_buffer().len(), 0);
    small.set_final_size(0);
    let (bytes, stored) = small.read_buffer();
    assert!(bytes.is_none());
    assert_eq!(stored, 0);
}

#[test]
fn a_default_buffer_is_a_new_buffer() {
    let mut buffer = StackBuffer::<1024>::default();
    let capacity = buffer.capacity();
    assert!(capacity > 1024 - 16 && capacity <= 1024);
    assert_eq!(buffer.write_buffer().len(), capacity as usize);
    assert_eq!(buffer.read_buffer().1, 0);
    assert_eq!(StackBuffer::<0>::default().capacity(), 0);
}

#[test]
fn a_buffer_offers_what_is_left_behind_the_aligned_start() {
    let mut buffer = StackBuffer::<1024>::new();
    let capacity = buffer.capacity();
    assert!(capacity > 1024 - 16);
    assert!(capacity <= 1024);
    let region = buffer.write_buffer();
    assert_eq!(region.len(), capacity as usize);
    region[0] = 1;
    region[capacity as usize - 1] = 2;
    assert_eq!(buffer.capacity(), capacity);
    let (bytes, stored) = buffer.read_buffer();
    assert_eq!(stored, 0);
    let bytes = bytes.unwrap();
    assert_eq!(bytes.len(), capacity as usize);
    assert_eq!(bytes[0], 1);
    assert_eq!(bytes[capacity as usize - 1], 2);
    buffer.set_final_size(5);
    assert_eq!(buffer.read_buffer().1, 5);
    let exact = StackBuffer::<16>::new();
    assert!(exact.capacity() >= 1);
}

#[test]
fn a_heap_buffer_has_exactly_the_capacity_asked_for() {
    let mut ledger = HeapLedger::new();
    let mut buffer = HeapBuffer::new(100, &mut ledger);
    assert_eq!(buffer.capacity(), 100);
    assert!(ledger.held() >= 100 && ledger.held() < 100 + ALIGNMENT as u64);
    assert_eq!(ledger.peak_held(), ledger.held());
    let region = buffer.write_buffer();
    assert_eq!(region.len(), 100);
    region[99] = 7;
    buffer.set_final_size(100);
    let (bytes, stored) = buffer.read_buffer();
    assert_eq!(stored, 100);
    assert_eq!(bytes.unwrap()[99], 7);
    let held = ledger.held();
    buffer.free(&mut ledger);
    assert_eq!(ledger.held(), 0);
    assert_eq!(ledger.peak_held(), held);
    assert_eq!(HeapBuffer::new(0, &mut ledger).capacity(), 0);
}

#[test]
fn a_negotiation_never_holds_two_buffers_of_its_own() {
    let mut initial_buffer = StackBuffer::<0>::new();
    let grow_strategy = GrowToNearestNibble::new();
    let mut growable_buffer =
        GrowableBuffer::<_, _, Bytes>::new(&mut initial_buffer, &grow_strategy);
    assert_eq!(growable_buffer.allocated(), 0);
    assert_eq!(growable_buffer.peak_allocated(), 0);
    let mut largest = 0;
    for (desired, capacity) in [(1u32, 16u64), (100, 112), (50, 112), (1000, 1008), (4000, 4000)] {
        let mut argument = growable_buffer.argument();
        argument.set_needed_size(desired);
        argument.grow();
        let held = growable_buffer.allocated();
        assert!(held >= capacity && held < capacity + ALIGNMENT as u64);
        if held > largest {
            largest = held;
        }
        assert_eq!(growable_buffer.peak_allocated(), largest);
        assert_eq!(growable_buffer.peak_allocated(), held);
    }
    assert!(growable_buffer.peak_allocated() < 4000 + ALIGNMENT as u64);
}

#[test]
fn every_region_starts_at_an_aligned_address() {
    let mut first = StackBuffer::<1024>::new();
    assert_eq!(first.write_buffer().as_ptr().addr() % ALIGNMENT, 0);
    assert_eq!(first.read_buffer().0.unwrap().as_ptr().addr() % ALIGNMENT, 0);
    let mut second = StackBuffer::<17>::new();
    assert_eq!(second.write_buffer().as_ptr().addr() % ALIGNMENT, 0);
    for capacity in [1u32, 7, 16, 100, 1000, 4096, 65537] {
        let mut ledger = HeapLedger::new();
        let mut buffer = HeapBuffer::new(capacity, &mut ledger);
        let region = buffer.write_buffer();
        assert_eq!(region.len(), capacity as usize);
        assert_eq!(region.as_ptr().addr() % ALIGNMENT, 0);
        buffer.set_final_size(1);
        let bytes = buffer.read_buffer().0.unwrap();
        assert_eq!(bytes.len(), capacity as usize);
        assert_eq!(bytes.as_ptr().addr() % ALIGNMENT, 0);
    }
}

#[test]
fn an_argument_starts_with_the_capacity_as_its_size() {
    let mut initial_buffer = StackBuffer::<1024>::new();
    let capacity = initial_buffer.capacity();
    let grow_strategy = GrowForSmallBinary::new();
    let mut bytes = GrowableBuffer::<_, _, Bytes>::new(&mut initial_buffer, &grow_strategy);
    let mut argument = bytes.argument();
    assert_eq!(argument.tries(), 1);
    assert_eq!(argument.needed_size(), capacity);
    assert_eq!(*argument.size(), capacity);
    assert_eq!(argument.pointer().len(), capacity as usize);
    assert!(argument.can_commit());
    argument.set_needed_size(capacity + 1);
    assert!(!argument.can_commit());
    let mut other_buffer = StackBuffer::<1024>::new();
    let mut wide = GrowableBuffer::<_, _, windows::core::PWSTR>::new(&mut other_buffer, &grow_strategy);
    let argument = wide.argument();
    assert_eq!(argument.needed_size(), capacity / 2);
}

#[test]
fn committing_then_freezing_reports_the_size_committed() {
    for size in [1u32, 2, 100, 1000] {
        let mut initial_buffer = StackBuffer::<1024>::new();
        let grow_strategy = GrowForSmallBinary::new();
        let mut growable_buffer =
            GrowableBuffer::<_, _, Bytes>::new(&mut initial_buffer, &grow_strategy);
        let mut argument = growable_buffer.argument();
        let (region, needed) = argument.parts();
        region[size as usize - 1] = 9;
        *needed = size;
        argument.commit();
        let frozen_buffer = growable_buffer.freeze();
        assert_eq!(frozen_buffer.size(), size);
        let (bytes, stored) = frozen_buffer.read_buffer();
        assert_eq!(stored, size);
        assert_eq!(bytes.unwrap()[size as usize - 1], 9);
        assert_eq!(frozen_buffer.size(), size);
        assert!(frozen_buffer.pointer().is_some());
    }
}

#[test]
fn committing_nothing_then_freezing_has_nothing_to_read() {
    let mut initial_buffer = StackBuffer::<1024>::new();
    let grow_strategy = GrowForSmallBinary::new();
    let mut growable_buffer =
        GrowableBuffer::<_, _, Bytes>::new(&mut initial_buffer, &grow_strategy);
    let mut argument = growable_buffer.argument();
    *argument.size() = 0;
    argument.commit();
    let frozen_buffer = growable_buffer.freeze();
    assert_eq!(frozen_buffer.size(), 0);
    assert!(frozen_buffer.pointer().is_none());
}

#[test]
fn no_data_freezes_to_nothing_in_either_kind_of_buffer() {
    let mut initial_buffer = StackBuffer::<1024>::new();
    let grow_strategy = GrowForSmallBinary::new();
    let mut growable_buffer =
        GrowableBuffer::<_, _, Bytes>::new(&mut initial_buffer, &grow_strategy);
    assert!(growable_buffer.argument().apply(FillBufferAction::NoData));
    let frozen_buffer = growable_buffer.freeze();
    assert_eq!(frozen_buffer.read_buffer().1, 0);
    assert!(frozen_buffer.read_buffer().0.is_none());

    let mut zero_buffer = StackBuffer::<0>::new();
    let mut on_heap = GrowableBuffer::<_, _, Bytes>::new(&mut zero_buffer, &grow_strategy);
    let mut argument = on_heap.argument();
    argument.set_needed_size(100);
    assert!(!argument.apply(FillBufferAction::Grow));
    let mut argument = on_heap.argument();
    assert_eq!(argument.tries(), 2);
    assert_eq!(argument.needed_size(), 112);
    argument.pointer()[0] = 1;
    argument.commit_no_data();
    let frozen_buffer = on_heap.freeze();
    assert_eq!(frozen_buffer.size(), 0);
    assert!(frozen_buffer.pointer().is_none());
}

#[test]
fn freezing_without_an_attempt_has_nothing_to_read() {
    let mut initial_buffer = StackBuffer::<1024>::new();
    let grow_strategy = GrowForSmallBinary::new();
    let growable_buffer = GrowableBuffer::<_, _, Bytes>::new(&mut initial_buffer, &grow_strategy);
    let frozen_buffer = growable_buffer.freeze();
    assert_eq!(frozen_buffer.size(), 0);
    assert!(frozen_buffer.pointer().is_none());
}

#[test]
fn growing_is_a_no_op_where_the_size_fits() {
    let mut initial_buffer = StackBuffer::<1024>::new();
    let capacity = initial_buffer.capacity();
    let grow_strategy = GrowForSmallBinary::new();
    let mut growable_buffer =
        GrowableBuffer::<_, _, Bytes>::new(&mut initial_buffer, &grow_strategy);
    let mut argument = growable_buffer.argument();
    argument.pointer()[0] = 77;
    argument.grow();
    let mut argument = growable_buffer.argument();
    assert_eq!(argument.tries(), 1);
    assert_eq!(argument.needed_size(), capacity);
    assert_eq!(argument.pointer()[0], 77);
    argument.set_needed_size(capacity + 1);
    argument.grow();
    let argument = growable_buffer.argument();
    assert_eq!(argument.tries(), 2);
    assert_eq!(argument.needed_size(), (capacity + 1 + 15) / 16 * 16);
}

#[test]
fn each_replacement_has_the_capacity_that_the_strategy_chooses() {
    let mut initial_buffer = StackBuffer::<0>::new();
    let grow_strategy = GrowToNearestNibble::new();
    let mut growable_buffer =
        GrowableBuffer::<_, _, Bytes>::new(&mut initial_buffer, &grow_strategy);
    let mut expected_tries = 1;
    for (desired, capacity) in [(1u32, 16u32), (17, 32), (20, 32), (1000, 1008), (5, 1008)] {
        let mut argument = growable_buffer.argument();
        assert_eq!(argument.tries(), expected_tries);
        if desired > argument.needed_size() {
            expected_tries += 1;
        }
        argument.set_needed_size(desired);
        assert!(!argument.apply(FillBufferAction::Grow));
        let mut argument = growable_buffer.argument();
        assert_eq!(argument.needed_size(), capacity);
        assert_eq!(argument.pointer().len(), capacity as usize);
    }
    assert_eq!(expected_tries, 4);
}

#[test]
fn an_attempt_settles_by_its_outcome() {
    let mut initial_buffer = StackBuffer::<1024>::new();
    let capacity = initial_buffer.capacity();
    let grow_strategy = GrowForSmallBinary::new();
    let mut growable_buffer =
        GrowableBuffer::<_, _, Bytes>::new(&mut initial_buffer, &grow_strategy);

    let argument = growable_buffer.argument();
    assert_eq!(argument.settle(&RvIsError::new(5)), Err(FillBufferError::Os(5)));

    let argument = growable_buffer.argument();
    assert_eq!(
        argument.settle(&RvIsSize::new(capacity + 1, 122)),
        Err(FillBufferError::Undefined)
    );

    let mut argument = growable_buffer.argument();
    argument.set_needed_size(capacity + 1);
    assert_eq!(argument.settle(&RvIsError::new(0)), Err(FillBufferError::Overrun));

    let mut argument = growable_buffer.argument();
    argument.set_needed_size(capacity + 1);
    assert_eq!(argument.settle(&RvIsError::new(122)), Ok(false));

    let argument = growable_buffer.argument();
    assert_eq!(argument.tries(), 2);
    assert_eq!(argument.settle(&RvIsSize::new(10, 0)), Ok(true));
    assert_eq!(growable_buffer.freeze().size(), 10);
}

#[test]
fn an_overrun_ends_the_negotiation() {
    let mut finalized = false;
    let result = winapi_generic(
        GrowableBuffer::<_, _, Bytes>::new(
            &mut StackBuffer::<64>::new(),
            &GrowForSmallBinary::new(),
        ),
        |argument| {
            *argument.size() = 65;
            RvIsError::new(0)
        },
        |_frozen_buffer| {
            finalized = true;
            Ok(())
        },
    );
    assert_eq!(result, Err(FillBufferError::Overrun));
    assert!(!finalized);
}

#[test]
fn an_undefined_outcome_ends_the_negotiation() {
    let mut finalized = false;
    let result = winapi_binary(
        &mut StackBuffer::<64>::new(),
        &GrowForSmallBinary::new(),
        |argument| RvIsSize::new(*argument.size(), 0),
        |_frozen_buffer| {
            finalized = true;
            Ok(())
        },
    );
    assert_eq!(result, Err(FillBufferError::Undefined));
    assert!(!finalized);
}

#[test]
fn the_error_of_finalize_is_passed_on() {
    let result: Result<(), FillBufferError> = winapi_binary(
        &mut StackBuffer::<64>::new(),
        &GrowForSmallBinary::new(),
        |argument| {
            *argument.size() = 1;
            RvIsError::new(0)
        },
        |_frozen_buffer| Err(FillBufferError::Os(87)),
    );
    assert_eq!(result, Err(FillBufferError::Os(87)));
}

#[test]
fn a_full_buffer_is_doubled_and_then_holds_what_was_written() {
    let mut attempts = 0;
    let mut written: Vec<u8> = Vec::new();
    let mut capacities: Vec<u32> = Vec::new();
    let content = winapi_binary(
        &mut StackBuffer::<64>::new(),
        &GrowForStoredIsReturned::<0>::new(),
        |argument| {
            attempts += 1;
            let (region, size) = argument.parts();
            capacities.push(*size);
            if *size < 100 {
                RvIsSize::new(*size, 122)
            } else {
                for (index, byte) in region[..99].iter_mut().enumerate() {
                    *byte = index as u8 + 1;
                }
                written = region[..99].to_vec();
                RvIsSize::new(99, 0)
            }
        },
        |frozen_buffer| {
            assert_eq!(frozen_buffer.size(), 99);
            Ok(frozen_buffer.pointer().unwrap()[..99].to_vec())
        },
    )
    .unwrap();
    assert_eq!(attempts, 2);
    assert!(capacities[0] > 48 && capacities[0] <= 64);
    assert_eq!(capacities[1], (2 * capacities[0] + 2 + 15) / 16 * 32);
    assert!(capacities[1] >= 100);
    assert_eq!(content.len(), 99);
    assert_eq!(content, written);
    assert_eq!(content[98], 99);
}

#[test]
fn a_status_of_no_data_ends_the_negotiation_at_once() {
    let mut attempts = 0;
    let size = winapi_binary(
        &mut StackBuffer::<64>::new(),
        &GrowForSmallBinary::new(),
        |argument| {
            attempts += 1;
            argument.pointer()[0] = 1;
            RvIsError::new(232)
        },
        |frozen_buffer| {
            assert!(frozen_buffer.pointer().is_none());
            Ok(frozen_buffer.size())
        },
    )
    .unwrap();
    assert_eq!(attempts, 1);
    assert_eq!(size, 0);
}

#[test]
fn a_buffer_without_capacity_goes_straight_to_the_heap() {
    let mut attempts = 0;
    let mut capacities: Vec<u32> = Vec::new();
    let (size, capacity) = winapi_binary(
        &mut StackBuffer::<0>::new(),
        &GrowByDoubleWithNull::<64>::new(),
        |argument| {
            attempts += 1;
            assert_eq!(argument.tries(), attempts);
            let (region, size) = argument.parts();
            capacities.push(*size);
            let fits = *size >= 100;
            if fits {
                for byte in region[..100].iter_mut() {
                    *byte = 0xab;
                }
            }
            *size = 100;
            RvIsError::new(if fits { 0 } else { 122 })
        },
        |frozen_buffer| {
            let bytes = frozen_buffer.pointer().unwrap();
            assert!(bytes[..100].iter().all(|byte| *byte == 0xab));
            Ok((frozen_buffer.size(), bytes.len()))
        },
    )
    .unwrap();
    assert_eq!(attempts, 2);
    assert_eq!(capacities, vec![0, 224]);
    assert_eq!(size, 100);
    assert!(capacity >= 100);
    assert_eq!(capacity, 224);
}
