use vstd::prelude::*;

use cairo_vm::vm::vm_core::VirtualMachine;

use crate::handler::SyscallHandler;
use crate::memory::{
    read_felt_at, vm_felt_cells, vm_segment_lens, window, window_free, window_resolved,
    write_window, MemoryPointer,
};
use crate::registry::{info_of, Request, RequestFactory, SyscallRegistry};
use crate::syscalls::{
    felts_of, EmptyResponse, Response, StorageReadRequest, StorageReadResponse,
    StorageWriteRequest, SyscallError, SyscallRequest, SyscallResponse,
};

verus! {

/// The syscall invocation at `ptr` decodes to `q`, and executing `q` took
/// storage `before` to `after` with response `resp`.
pub open spec fn served_by(
    cells: Map<(int, int), Seq<u8>>,
    ptr: MemoryPointer,
    q: Request,
    resp: Response,
    before: SyscallHandler,
    after: SyscallHandler,
) -> bool {
    &&& q.felts() == window(cells, ptr, q.factory().request_felts())
    &&& q.executes_to(before, after, resp)
}

/// For every registered syscall the registry's word sizes are those of its
/// shapes: the request spans a positive number of cells, all of which a
/// decoded request was read from, and an executed response encodes to
/// exactly the response size.
pub proof fn lemma_sizes_match_shapes(q: Request, resp: Response, before: SyscallHandler, after: SyscallHandler)
    requires
        q.executes_to(before, after, resp),
    ensures
        info_of(q.factory()).syscall_request_size == q.factory().request_felts(),
        info_of(q.factory()).syscall_response_size == q.factory().response_felts(),
        q.factory().request_felts() > 0,
        q.felts().len() == q.factory().request_felts(),
        resp.felts().len() == q.factory().response_felts(),
{
    assert(felts_of::<StorageReadRequest>() == 2);
    assert(felts_of::<StorageWriteRequest>() == 3);
    assert(felts_of::<StorageReadResponse>() == 1);
    assert(felts_of::<EmptyResponse>() == 0);
}

/// A storage write decoded from the cells at `ptr` and executed makes exactly
/// one write, of the decoded value at the decoded address, leaves every other
/// address as it was, and answers with the empty response.
pub proof fn lemma_storage_write_served(
    cells: Map<(int, int), Seq<u8>>,
    ptr: MemoryPointer,
    q: StorageWriteRequest,
    resp: Response,
    before: SyscallHandler,
    after: SyscallHandler,
)
    requires
        served_by(cells, ptr, Request::StorageWrite(q), resp, before, after),
    ensures
        after.writes() == before.writes().push((cells[ptr.key_at(1)], cells[ptr.key_at(2)])),
        after.stored(cells[ptr.key_at(1)]) == Some(cells[ptr.key_at(2)]),
        forall|k: Seq<u8>| k != cells[ptr.key_at(1)] ==> #[trigger] after.stored(k) == before.stored(k),
        resp == Response::Empty(EmptyResponse {}),
{
    assert(felts_of::<StorageWriteRequest>() == 3);
    assert(q.felts()[1] == cells[ptr.key_at(1)]);
    assert(q.felts()[2] == cells[ptr.key_at(2)]);
}

/// A storage read decoded from the cells at `ptr` and executed leaves the
/// storage as it was and answers with the value stored at the decoded
/// address, or zero where nothing was stored there.
pub proof fn lemma_storage_read_served(
    cells: Map<(int, int), Seq<u8>>,
    ptr: MemoryPointer,
    q: StorageReadRequest,
    resp: Response,
    before: SyscallHandler,
    after: SyscallHandler,
)
    requires
        served_by(cells, ptr, Request::StorageRead(q), resp, before, after),
    ensures
        after == before,
        resp matches Response::StorageRead(r) && match before.stored(cells[ptr.key_at(1)]) {
            Some(v) => r.value.bytes@ == v,
            None => r.value.value() == 0,
        },
{
    assert(felts_of::<StorageReadRequest>() == 2);
    assert(q.felts()[1] == cells[ptr.key_at(1)]);
}

/// Where the cell at `ptr` is unresolved, no registered request decodes there.
pub proof fn lemma_unresolved_pointer_fails(cells: Map<(int, int), Seq<u8>>, ptr: MemoryPointer, f: RequestFactory)
    requires
        !cells.contains_key(ptr.key()),
    ensures
        !window_resolved(cells, ptr, f.request_felts()),
{
    assert(felts_of::<StorageReadRequest>() == 2);
    assert(felts_of::<StorageWriteRequest>() == 3);
    assert(ptr.key_at(0) == ptr.key());
}

/// Serves the syscall invoked at `ptr`: reads its selector, looks it up,
/// decodes the request, executes it against `handler`, and writes the
/// response from `response_ptr` on. The first failure ends the call.
pub fn execute_syscall(
    registry: &SyscallRegistry,
    vm: &mut VirtualMachine,
    handler: &mut SyscallHandler,
    ptr: &MemoryPointer,
    response_ptr: &MemoryPointer,
) -> (r: Result<(), SyscallError>)
    requires
        old(handler).wf(),
    ensures
        final(handler).wf(),
        !vm_felt_cells(*old(vm)).contains_key(ptr.key()) ==> {
            &&& r == Err::<(), SyscallError>(SyscallError::DecodeError)
            &&& *final(vm) == *old(vm)
            &&& *final(handler) == *old(handler)
        },
        vm_felt_cells(*old(vm)).contains_key(ptr.key()) && registry.lookup(
            vm_felt_cells(*old(vm))[ptr.key()],
        ) is None ==> {
            &&& r == Err::<(), SyscallError>(SyscallError::SelectorNotFound)
            &&& *final(vm) == *old(vm)
            &&& *final(handler) == *old(handler)
        },
        vm_felt_cells(*old(vm)).contains_key(ptr.key()) && registry.lookup(
            vm_felt_cells(*old(vm))[ptr.key()],
        ) is Some && !window_resolved(
            vm_felt_cells(*old(vm)),
            *ptr,
            registry.lookup(vm_felt_cells(*old(vm))[ptr.key()])->0.syscall_request_factory.request_felts(),
        ) ==> {
            &&& r == Err::<(), SyscallError>(SyscallError::DecodeError)
            &&& *final(vm) == *old(vm)
            &&& *final(handler) == *old(handler)
        },
        vm_felt_cells(*old(vm)).contains_key(ptr.key()) && registry.lookup(
            vm_felt_cells(*old(vm))[ptr.key()],
        ) is Some && window_resolved(
            vm_felt_cells(*old(vm)),
            *ptr,
            registry.lookup(vm_felt_cells(*old(vm))[ptr.key()])->0.syscall_request_factory.request_felts(),
        ) ==> exists|q: Request, resp: Response|
            {
                &&& q.factory() == registry.lookup(
                    vm_felt_cells(*old(vm))[ptr.key()],
                )->0.syscall_request_factory
                &&& #[trigger] served_by(vm_felt_cells(*old(vm)), *ptr, q, resp, *old(handler), *final(handler))
                &&& r is Ok ==> vm_felt_cells(*final(vm)) == write_window(
                    vm_felt_cells(*old(vm)),
                    *response_ptr,
                    resp.felts(),
                )
                &&& r is Err ==> r == Err::<(), SyscallError>(SyscallError::EncodeError)
                &&& r is Err ==> vm_felt_cells(*final(vm)) == vm_felt_cells(*old(vm))
                    || vm_felt_cells(*final(vm)) == write_window(
                    vm_felt_cells(*old(vm)),
                    *response_ptr,
                    resp.felts(),
                )
                &&& resp.felts().len() == 0 ==> r is Ok && *final(vm) == *old(vm)
                &&& window_free(*old(vm), *response_ptr, resp.felts().len()) ==> r is Ok
                &&& resp.felts().len() > 0 && !vm_segment_lens(*old(vm)).contains_key(
                    response_ptr.segment_index as int,
                ) ==> r is Err && *final(vm) == *old(vm)
            },
{
    let ghost cells = vm_felt_cells(*vm);
    assert(ptr.key_at(0) == ptr.key());
    let selector = match read_felt_at(vm, *ptr, 0) {
        Some(f) => f,
        None => return Err(SyscallError::DecodeError),
    };
    let info = registry.get(&selector)?;
    let request = info.syscall_request_factory.read(vm, ptr)?;
    let response = request.execute(handler)?;
    let r = response.write(vm, response_ptr);
    assert(served_by(cells, *ptr, request, response, *old(handler), *handler));
    r
}

} // verus!
