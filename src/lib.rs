//! Syscall dispatch layer of the Cairo virtual machine: decoding syscall
//! requests from VM memory, executing them against a storage handler, and
//! encoding their responses back into VM memory.

mod dispatch;
mod felt;
mod handler;
mod memory;
mod registry;
mod selector;
mod syscalls;

pub use dispatch::{
    execute_syscall, lemma_sizes_match_shapes, lemma_storage_read_served,
    lemma_storage_write_served, lemma_unresolved_pointer_fails, served_by,
};
pub use felt::{felt_int, felt_prime, lemma_felt_int_injective, Felt, FELT_SIZE};
pub use handler::{stored_in, SyscallHandler};
pub use memory::{
    cell_free, lemma_write_then_read, vm_checked_segments, vm_felt_cells, vm_segment_lens,
    vm_set_cells, window, window_free, window_resolved, write_window, MemoryPointer,
};
pub use registry::{
    get_syscall_info, info_of, lookup_in, registered, Request, RequestFactory, SyscallInfo,
    SyscallRegistry, STORAGE_READ_SELECTOR, STORAGE_WRITE_SELECTOR,
};
pub use selector::{
    hex_digit_value, hex_value, is_hex_digit, lemma_hex_value_bound, parses_as_felt,
    strip_hex_prefixes,
};
pub use syscalls::{
    felts_of, read_result, size_in_felts, EmptyResponse, FeltLayout, Response, StorageRead,
    StorageReadRequest, StorageReadResponse, StorageWrite, StorageWriteRequest, SyscallError,
    SyscallRequest, SyscallResponse,
};
