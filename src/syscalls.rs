use vstd::prelude::*;

use cairo_vm::vm::vm_core::VirtualMachine;

use crate::felt::{Felt, FELT_SIZE};
use crate::handler::SyscallHandler;
use crate::memory::{
    cell_free, insert_felt, read_felt_at, vm_felt_cells, vm_segment_lens, window, window_free,
    window_resolved, write_window, MemoryPointer,
};

verus! {

/// Why a syscall could not be served.
#[derive(Clone, Copy, Debug, PartialEq, Eq, Structural)]
pub enum SyscallError {
    /// A request cell is unresolved, holds no integer, or lies past the
    /// addressable range.
    DecodeError,
    /// VM memory refused a response cell.
    EncodeError,
    /// No syscall is registered under the selector.
    SelectorNotFound,
    /// A selector constant does not parse into a field element.
    RegistryConstructionError,
}

/// A record of fixed shape, laid out as a whole number of field elements.
pub trait FeltLayout {
    /// Storage footprint of the record, in bytes.
    spec fn spec_storage_size() -> nat;

    fn storage_size() -> (r: usize)
        ensures
            r == Self::spec_storage_size(),
    ;
}

/// The number of field elements a record of type `T` occupies.
pub open spec fn felts_of<T: FeltLayout>() -> nat {
    T::spec_storage_size() / (FELT_SIZE as nat)
}

/// The number of field elements a record of type `T` occupies: its footprint
/// divided by that of one field element.
pub fn size_in_felts<T: FeltLayout>() -> (r: usize)
    requires
        T::spec_storage_size() % (FELT_SIZE as nat) == 0,
    ensures
        r == felts_of::<T>(),
{
    T::storage_size() / FELT_SIZE
}

/// A syscall response: it encodes into consecutive VM memory cells.
pub trait SyscallResponse {
    /// The cells the response encodes to, in field declaration order.
    spec fn felts(&self) -> Seq<Seq<u8>>;

    /// Every field is a reduced field element.
    spec fn well_formed(&self) -> bool;

    /// Writes the response into the cells from `ptr` on. Only VM memory can
    /// refuse a write, so a response of no cells always succeeds and leaves
    /// the VM as it was, free cells always take the response, and a segment
    /// that is not allocated refuses it with the VM left as it was. A refused
    /// write leaves memory as it was or with the response written.
    fn write(&self, vm: &mut VirtualMachine, ptr: &MemoryPointer) -> (r: Result<(), SyscallError>)
        requires
            self.well_formed(),
        ensures
            r is Ok ==> vm_felt_cells(*final(vm)) == write_window(
                vm_felt_cells(*old(vm)),
                *ptr,
                self.felts(),
            ),
            r is Err ==> r == Err::<(), SyscallError>(SyscallError::EncodeError),
            r is Err ==> vm_felt_cells(*final(vm)) == vm_felt_cells(*old(vm))
                || vm_felt_cells(*final(vm)) == write_window(
                vm_felt_cells(*old(vm)),
                *ptr,
                self.felts(),
            ),
            self.felts().len() == 0 ==> r is Ok && *final(vm) == *old(vm),
            window_free(*old(vm), *ptr, self.felts().len()) ==> r is Ok,
            self.felts().len() > 0 && !vm_segment_lens(*old(vm)).contains_key(ptr.segment_index as int)
                ==> r is Err && *final(vm) == *old(vm),
    ;
}

/// A syscall request: it decodes from consecutive VM memory cells and
/// executes against a storage handler.
pub trait SyscallRequest: FeltLayout + Sized {
    /// The request's fields, in declaration order, as the cells they come from.
    spec fn felts(&self) -> Seq<Seq<u8>>;

    /// Every field is a reduced field element.
    spec fn well_formed(&self) -> bool;

    /// Executing the request takes storage `before` to `after` and yields `resp`.
    spec fn executes_to(&self, before: SyscallHandler, after: SyscallHandler, resp: Response) -> bool;

    /// Decodes the request from the cells from `ptr` on.
    fn read(vm: &VirtualMachine, ptr: &MemoryPointer) -> (r: Result<Self, SyscallError>)
        ensures
            r is Ok <==> window_resolved(vm_felt_cells(*vm), *ptr, felts_of::<Self>()),
            r is Ok ==> r->Ok_0.well_formed() && r->Ok_0.felts() == window(
                vm_felt_cells(*vm),
                *ptr,
                felts_of::<Self>(),
            ),
            r is Err ==> r == Err::<Self, SyscallError>(SyscallError::DecodeError),
    ;

    /// Runs the syscall's effect against `handler`.
    fn execute(&self, handler: &mut SyscallHandler) -> (r: Result<Response, SyscallError>)
        requires
            self.well_formed(),
            old(handler).wf(),
        ensures
            final(handler).wf(),
            r is Ok,
            self.executes_to(*old(handler), *final(handler), r->Ok_0),
            r->Ok_0.well_formed(),
    ;
}

/// Reads cell `k` of the `n` cells from `p` on; where it is missing, the
/// window is not resolved.
fn read_window_felt(vm: &VirtualMachine, p: MemoryPointer, k: usize, Ghost(n): Ghost<nat>) -> (r: Result<Felt, SyscallError>)
    requires
        k < n,
    ensures
        r is Ok ==> r->Ok_0.bytes@ == vm_felt_cells(*vm)[p.key_at(k as int)] && r->Ok_0.is_canonical(),
        r is Ok ==> p.offset + k <= usize::MAX && vm_felt_cells(*vm).contains_key(p.key_at(k as int)),
        r is Err ==> r == Err::<Felt, SyscallError>(SyscallError::DecodeError) && !window_resolved(
            vm_felt_cells(*vm),
            p,
            n,
        ),
{
    match read_felt_at(vm, p, k) {
        Some(f) => Ok(f),
        None => {
            assert(!window_resolved(vm_felt_cells(*vm), p, n)) by {
                if window_resolved(vm_felt_cells(*vm), p, n) {
                    assert(vm_felt_cells(*vm).contains_key(p.key_at(k as int)));
                }
            }
            Err(SyscallError::DecodeError)
        },
    }
}

/// The response of a syscall that returns nothing.
#[derive(Clone, Copy, Debug, PartialEq, Eq, Structural)]
pub struct EmptyResponse {}

impl FeltLayout for EmptyResponse {
    open spec fn spec_storage_size() -> nat {
        0
    }

    fn storage_size() -> (r: usize) {
        0
    }
}

impl SyscallResponse for EmptyResponse {
    open spec fn felts(&self) -> Seq<Seq<u8>> {
        Seq::empty()
    }

    open spec fn well_formed(&self) -> bool {
        true
    }

    fn write(&self, _vm: &mut VirtualMachine, _ptr: &MemoryPointer) -> (r: Result<(), SyscallError>) {
        Ok(())
    }
}

/// Reads the storage at `address`.
#[derive(Clone, Copy, Debug)]
pub struct StorageReadRequest {
    pub selector: Felt,
    pub address: Felt,
}

/// Carries the value read from storage.
#[derive(Clone, Copy, Debug)]
pub struct StorageReadResponse {
    pub value: Felt,
}

/// A completed storage read.
#[derive(Clone, Copy, Debug)]
pub struct StorageRead {
    pub request: StorageReadRequest,
    pub response: StorageReadResponse,
}

/// Writes `value` into the storage at `address`.
#[derive(Clone, Copy, Debug)]
pub struct StorageWriteRequest {
    pub selector: Felt,
    pub address: Felt,
    pub value: Felt,
}

/// A completed storage write.
#[derive(Clone, Copy, Debug)]
pub struct StorageWrite {
    pub request: StorageWriteRequest,
    pub response: EmptyResponse,
}

/// The response of any registered syscall.
#[derive(Clone, Copy, Debug)]
pub enum Response {
    Empty(EmptyResponse),
    StorageRead(StorageReadResponse),
}

impl FeltLayout for StorageReadResponse {
    open spec fn spec_storage_size() -> nat {
        FELT_SIZE as nat
    }

    fn storage_size() -> (r: usize) {
        FELT_SIZE
    }
}

impl SyscallResponse for StorageReadResponse {
    open spec fn felts(&self) -> Seq<Seq<u8>> {
        seq![self.value.bytes@]
    }

    open spec fn well_formed(&self) -> bool {
        self.value.is_canonical()
    }

    fn write(&self, vm: &mut VirtualMachine, ptr: &MemoryPointer) -> (r: Result<(), SyscallError>) {
        let ghost felts = self.felts();
        assert(felts.drop_last() =~= Seq::<Seq<u8>>::empty());
        assert(ptr.key_at(0) == ptr.key());
        reveal_with_fuel(write_window, 2);
        assert(window_free(*vm, *ptr, 1) ==> cell_free(*vm, ptr.key_at(0)));
        match insert_felt(vm, *ptr, &self.value) {
            Ok(()) => Ok(()),
            Err(_) => Err(SyscallError::EncodeError),
        }
    }
}

impl SyscallResponse for Response {
    open spec fn felts(&self) -> Seq<Seq<u8>> {
        match self {
            Response::Empty(r) => r.felts(),
            Response::StorageRead(r) => r.felts(),
        }
    }

    open spec fn well_formed(&self) -> bool {
        match self {
            Response::Empty(r) => r.well_formed(),
            Response::StorageRead(r) => r.well_formed(),
        }
    }

    fn write(&self, vm: &mut VirtualMachine, ptr: &MemoryPointer) -> (r: Result<(), SyscallError>) {
        match self {
            Response::Empty(r) => r.write(vm, ptr),
            Response::StorageRead(r) => r.write(vm, ptr),
        }
    }
}

/// The value a storage read of `address` yields: what was stored there, or zero.
pub open spec fn read_result(handler: SyscallHandler, address: Seq<u8>, value: Felt) -> bool {
    match handler.stored(address) {
        Some(v) => value.bytes@ == v,
        None => value.value() == 0,
    }
}

impl FeltLayout for StorageReadRequest {
    open spec fn spec_storage_size() -> nat {
        2 * FELT_SIZE as nat
    }

    fn storage_size() -> (r: usize) {
        2 * FELT_SIZE
    }
}

impl SyscallRequest for StorageReadRequest {
    open spec fn felts(&self) -> Seq<Seq<u8>> {
        seq![self.selector.bytes@, self.address.bytes@]
    }

    open spec fn well_formed(&self) -> bool {
        self.selector.is_canonical() && self.address.is_canonical()
    }

    open spec fn executes_to(&self, before: SyscallHandler, after: SyscallHandler, resp: Response) -> bool {
        &&& after == before
        &&& resp matches Response::StorageRead(r) && read_result(before, self.address.bytes@, r.value)
    }

    fn read(vm: &VirtualMachine, ptr: &MemoryPointer) -> (r: Result<Self, SyscallError>) {
        assert(felts_of::<Self>() == 2);
        let selector = read_window_felt(vm, *ptr, 0, Ghost(2))?;
        let address = read_window_felt(vm, *ptr, 1, Ghost(2))?;
        let r = StorageReadRequest { selector, address };
        assert(r.felts() =~= window(vm_felt_cells(*vm), *ptr, felts_of::<Self>()));
        Ok(r)
    }

    fn execute(&self, handler: &mut SyscallHandler) -> (r: Result<Response, SyscallError>) {
        let value = handler.read_storage(&self.address);
        Ok(Response::StorageRead(StorageReadResponse { value }))
    }
}

impl FeltLayout for StorageWriteRequest {
    open spec fn spec_storage_size() -> nat {
        3 * FELT_SIZE as nat
    }

    fn storage_size() -> (r: usize) {
        3 * FELT_SIZE
    }
}

impl SyscallRequest for StorageWriteRequest {
    open spec fn felts(&self) -> Seq<Seq<u8>> {
        seq![self.selector.bytes@, self.address.bytes@, self.value.bytes@]
    }

    open spec fn well_formed(&self) -> bool {
        self.selector.is_canonical() && self.address.is_canonical() && self.value.is_canonical()
    }

    open spec fn executes_to(&self, before: SyscallHandler, after: SyscallHandler, resp: Response) -> bool {
        &&& after.writes() == before.writes().push((self.address.bytes@, self.value.bytes@))
        &&& after.stored(self.address.bytes@) == Some(self.value.bytes@)
        &&& forall|k: Seq<u8>| k != self.address.bytes@ ==> #[trigger] after.stored(k) == before.stored(k)
        &&& resp == Response::Empty(EmptyResponse {})
    }

    fn read(vm: &VirtualMachine, ptr: &MemoryPointer) -> (r: Result<Self, SyscallError>) {
        assert(felts_of::<Self>() == 3);
        let selector = read_window_felt(vm, *ptr, 0, Ghost(3))?;
        let address = read_window_felt(vm, *ptr, 1, Ghost(3))?;
        let value = read_window_felt(vm, *ptr, 2, Ghost(3))?;
        let r = StorageWriteRequest { selector, address, value };
        assert(r.felts() =~= window(vm_felt_cells(*vm), *ptr, felts_of::<Self>()));
        Ok(r)
    }

    fn execute(&self, handler: &mut SyscallHandler) -> (r: Result<Response, SyscallError>) {
        handler.write_storage(&self.address, &self.value);
        Ok(Response::Empty(EmptyResponse {}))
    }
}

} // verus!
