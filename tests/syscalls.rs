use cairo_vm::types::relocatable::{MaybeRelocatable, Relocatable};
use cairo_vm::vm::vm_core::VirtualMachine;
use cairo_vm::Felt252;

use syscall_dispatch::{
    execute_syscall, get_syscall_info, size_in_felts, EmptyResponse, Felt, MemoryPointer,
    RequestFactory, Response, StorageReadRequest, StorageReadResponse, StorageWriteRequest,
    SyscallError, SyscallHandler, SyscallRequest, SyscallResponse, STORAGE_READ_SELECTOR,
    STORAGE_WRITE_SELECTOR,
};

fn selector_felt(s: &str) -> Felt252 {
    Felt252::from_hex(s).unwrap()
}

fn selector(s: &str) -> Felt {
    Felt { bytes: selector_felt(s).to_bytes_be() }
}

fn vm_with_cells(cells: &[Felt252]) -> (VirtualMachine, isize) {
    let mut vm = VirtualMachine::new(false, false);
    let base = vm.add_memory_segment();
    for (i, c) in cells.iter().enumerate() {
        vm.insert_value(Relocatable::from((base.segment_index, i)), *c).unwrap();
    }
    (vm, base.segment_index)
}

fn ptr(segment_index: isize, offset: usize) -> MemoryPointer {
    MemoryPointer { segment_index, offset }
}

fn cell(vm: &VirtualMachine, segment_index: isize, offset: usize) -> Option<MaybeRelocatable> {
    vm.get_maybe(&Relocatable::from((segment_index, offset)))
}

#[test]
fn storage_write_scenario() {
    let sel = selector_felt(STORAGE_WRITE_SELECTOR);
    let (mut vm, seg) = vm_with_cells(&[sel, Felt252::from(5u64), Felt252::from(18u64)]);
    let request = StorageWriteRequest::read(&vm, &ptr(seg, 0)).unwrap();
    assert_eq!(request.selector, selector(STORAGE_WRITE_SELECTOR));
    assert_eq!(request.address, Felt::from_u64(5));
    assert_eq!(request.value, Felt::from_u64(18));

    let registry = get_syscall_info().unwrap();
    let mut handler = SyscallHandler::new();
    let r = execute_syscall(&registry, &mut vm, &mut handler, &ptr(seg, 0), &ptr(seg, 3));
    assert_eq!(r, Ok(()));
    assert_eq!(handler.read_storage(&Felt::from_u64(5)), Felt::from_u64(18));
    assert_eq!(cell(&vm, seg, 3), None);
}

#[test]
fn storage_read_scenario() {
    let sel = selector_felt(STORAGE_READ_SELECTOR);
    let (mut vm, seg) = vm_with_cells(&[sel, Felt252::from(5u64)]);
    let request = StorageReadRequest::read(&vm, &ptr(seg, 0)).unwrap();
    assert_eq!(request.address, Felt::from_u64(5));

    let mut handler = SyscallHandler::new();
    handler.write_storage(&Felt::from_u64(5), &Felt::from_u64(17));
    match request.execute(&mut handler) {
        Ok(Response::StorageRead(resp)) => assert_eq!(resp.value, Felt::from_u64(17)),
        other => panic!("unexpected result {:?}", other),
    }

    let registry = get_syscall_info().unwrap();
    let r = execute_syscall(&registry, &mut vm, &mut handler, &ptr(seg, 0), &ptr(seg, 2));
    assert_eq!(r, Ok(()));
    assert_eq!(cell(&vm, seg, 2), Some(MaybeRelocatable::Int(Felt252::from(17u64))));
    assert_eq!(cell(&vm, seg, 3), None);
}

#[test]
fn unresolved_request_cell_fails_to_decode() {
    let (mut vm, seg) = vm_with_cells(&[]);
    assert!(matches!(
        StorageReadRequest::read(&vm, &ptr(seg, 0)),
        Err(SyscallError::DecodeError)
    ));
    assert!(matches!(
        StorageWriteRequest::read(&vm, &ptr(seg, 0)),
        Err(SyscallError::DecodeError)
    ));
    let registry = get_syscall_info().unwrap();
    let mut handler = SyscallHandler::new();
    let r = execute_syscall(&registry, &mut vm, &mut handler, &ptr(seg, 0), &ptr(seg, 5));
    assert_eq!(r, Err(SyscallError::DecodeError));
}

#[test]
fn truncated_write_request_fails_to_decode() {
    let sel = selector_felt(STORAGE_WRITE_SELECTOR);
    let (mut vm, seg) = vm_with_cells(&[sel, Felt252::from(5u64)]);
    assert!(matches!(
        StorageWriteRequest::read(&vm, &ptr(seg, 0)),
        Err(SyscallError::DecodeError)
    ));
    let registry = get_syscall_info().unwrap();
    let mut handler = SyscallHandler::new();
    let r = execute_syscall(&registry, &mut vm, &mut handler, &ptr(seg, 0), &ptr(seg, 3));
    assert_eq!(r, Err(SyscallError::DecodeError));
    assert_eq!(handler.read_storage(&Felt::from_u64(5)), Felt::from_u64(0));
}

#[test]
fn request_cell_holding_a_pointer_fails_to_decode() {
    let mut vm = VirtualMachine::new(false, false);
    let base = vm.add_memory_segment();
    let seg = base.segment_index;
    vm.insert_value(Relocatable::from((seg, 0)), selector_felt(STORAGE_READ_SELECTOR)).unwrap();
    vm.insert_value(Relocatable::from((seg, 1)), Relocatable::from((seg, 0))).unwrap();
    assert!(matches!(
        StorageReadRequest::read(&vm, &ptr(seg, 0)),
        Err(SyscallError::DecodeError)
    ));
}

#[test]
fn unknown_selector_is_not_found() {
    let (mut vm, seg) = vm_with_cells(&[Felt252::from(42u64), Felt252::from(5u64)]);
    let registry = get_syscall_info().unwrap();
    assert_eq!(registry.get(&Felt::from_u64(42)), Err(SyscallError::SelectorNotFound));
    let mut handler = SyscallHandler::new();
    let r = execute_syscall(&registry, &mut vm, &mut handler, &ptr(seg, 0), &ptr(seg, 2));
    assert_eq!(r, Err(SyscallError::SelectorNotFound));
    assert_eq!(cell(&vm, seg, 2), None);
}

#[test]
fn registry_sizes_match_shapes() {
    let registry = get_syscall_info().unwrap();
    let read = registry.get(&selector(STORAGE_READ_SELECTOR)).unwrap();
    assert_eq!(read.syscall_request_factory, RequestFactory::StorageRead);
    assert_eq!(read.syscall_request_size, 2);
    assert_eq!(read.syscall_response_size, 1);
    let write = registry.get(&selector(STORAGE_WRITE_SELECTOR)).unwrap();
    assert_eq!(write.syscall_request_factory, RequestFactory::StorageWrite);
    assert_eq!(write.syscall_request_size, 3);
    assert_eq!(write.syscall_response_size, 0);
}

#[test]
fn size_in_felts_of_each_shape() {
    assert_eq!(size_in_felts::<StorageReadRequest>(), 2);
    assert_eq!(size_in_felts::<StorageWriteRequest>(), 3);
    assert_eq!(size_in_felts::<StorageReadResponse>(), 1);
    assert_eq!(size_in_felts::<EmptyResponse>(), 0);
}

#[test]
fn read_response_round_trips_through_memory() {
    let (mut vm, seg) = vm_with_cells(&[]);
    let response = StorageReadResponse { value: Felt::from_u64(17) };
    assert_eq!(response.write(&mut vm, &ptr(seg, 4)), Ok(()));
    let back = cell(&vm, seg, 4);
    assert_eq!(back, Some(MaybeRelocatable::Int(Felt252::from(17u64))));
    match back {
        Some(MaybeRelocatable::Int(f)) => assert_eq!(Felt { bytes: f.to_bytes_be() }, response.value),
        _ => panic!("cell not written"),
    }
}

#[test]
fn empty_response_writes_nothing() {
    let (mut vm, seg) = vm_with_cells(&[]);
    assert_eq!(EmptyResponse {}.write(&mut vm, &ptr(seg, 0)), Ok(()));
    assert_eq!(cell(&vm, seg, 0), None);
}

#[test]
fn response_over_another_value_fails_to_encode() {
    let (mut vm, seg) = vm_with_cells(&[Felt252::from(3u64)]);
    let response = StorageReadResponse { value: Felt::from_u64(17) };
    assert_eq!(response.write(&mut vm, &ptr(seg, 0)), Err(SyscallError::EncodeError));
    assert_eq!(cell(&vm, seg, 0), Some(MaybeRelocatable::Int(Felt252::from(3u64))));
}

#[test]
fn response_into_unallocated_segment_fails_to_encode() {
    let (mut vm, _seg) = vm_with_cells(&[]);
    let response = StorageReadResponse { value: Felt::from_u64(17) };
    assert_eq!(response.write(&mut vm, &ptr(7, 0)), Err(SyscallError::EncodeError));
}

#[test]
fn write_then_read_storage() {
    let mut handler = SyscallHandler::new();
    let write = StorageWriteRequest {
        selector: selector(STORAGE_WRITE_SELECTOR),
        address: Felt::from_u64(5),
        value: Felt::from_u64(18),
    };
    match write.execute(&mut handler) {
        Ok(Response::Empty(_)) => {}
        other => panic!("unexpected result {:?}", other),
    }
    assert_eq!(handler.read_storage(&Felt::from_u64(5)), Felt::from_u64(18));
    assert_eq!(handler.read_storage(&Felt::from_u64(6)), Felt::from_u64(0));
    let overwrite = StorageWriteRequest { value: Felt::from_u64(19), ..write };
    overwrite.execute(&mut handler).unwrap();
    assert_eq!(handler.read_storage(&Felt::from_u64(5)), Felt::from_u64(19));
}

#[test]
fn storage_read_of_unwritten_address_is_zero() {
    let mut handler = SyscallHandler::new();
    let read = StorageReadRequest {
        selector: selector(STORAGE_READ_SELECTOR),
        address: Felt::from_u64(9),
    };
    match read.execute(&mut handler) {
        Ok(Response::StorageRead(resp)) => assert_eq!(resp.value, Felt::from_u64(0)),
        other => panic!("unexpected result {:?}", other),
    }
}

#[test]
fn felt_from_u64_is_big_endian() {
    let f = Felt::from_u64(0x0102);
    let mut expected = [0u8; 32];
    expected[30] = 1;
    expected[31] = 2;
    assert_eq!(f.bytes, expected);
}

#[test]
fn selector_constants_spell_syscall_names() {
    let read = selector(STORAGE_READ_SELECTOR);
    assert_eq!(&read.bytes[21..], b"StorageRead");
    let write = selector(STORAGE_WRITE_SELECTOR);
    assert_eq!(&write.bytes[20..], b"StorageWrite");
}

#[test]
fn response_into_free_cell_within_segment_succeeds() {
    let sel = selector_felt(STORAGE_READ_SELECTOR);
    let (mut vm, seg) = vm_with_cells(&[sel, Felt252::from(5u64)]);
    vm.insert_value(Relocatable::from((seg, 3)), Felt252::from(1u64)).unwrap();
    let response = StorageReadResponse { value: Felt::from_u64(17) };
    assert_eq!(response.write(&mut vm, &ptr(seg, 2)), Ok(()));
    assert_eq!(cell(&vm, seg, 2), Some(MaybeRelocatable::Int(Felt252::from(17u64))));
    assert_eq!(cell(&vm, seg, 3), Some(MaybeRelocatable::Int(Felt252::from(1u64))));
}
