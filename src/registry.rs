use vstd::prelude::*;

use cairo_vm::vm::vm_core::VirtualMachine;

use crate::felt::{felt_int, lemma_felt_int_injective, Felt};
use crate::handler::SyscallHandler;
use crate::memory::{read_felt_at, vm_felt_cells, window, window_resolved, MemoryPointer};
use crate::selector::{
    hex_value, is_hex_digit, lemma_hex_value_bound, parse_felt, parses_as_felt, strip_hex_prefixes,
};
use crate::syscalls::{
    felts_of, size_in_felts, EmptyResponse, Response, StorageReadRequest, StorageReadResponse,
    StorageWriteRequest, SyscallError, SyscallRequest, SyscallResponse,
};

verus! {

/// Selector of the storage read syscall: "StorageRead" in ASCII.
pub const STORAGE_READ_SELECTOR: &'static str = "0x53746f7261676552656164";

/// Selector of the storage write syscall: "StorageWrite" in ASCII.
pub const STORAGE_WRITE_SELECTOR: &'static str = "0x53746f726167655772697465";

/// A decoded request of any registered syscall.
#[derive(Clone, Copy, Debug)]
pub enum Request {
    StorageRead(StorageReadRequest),
    StorageWrite(StorageWriteRequest),
}

/// The decoding entry point of a registered syscall.
#[derive(Clone, Copy, Debug, PartialEq, Eq, Structural)]
pub enum RequestFactory {
    StorageRead,
    StorageWrite,
}

impl Request {
    pub open spec fn factory(&self) -> RequestFactory {
        match self {
            Request::StorageRead(_) => RequestFactory::StorageRead,
            Request::StorageWrite(_) => RequestFactory::StorageWrite,
        }
    }

    pub open spec fn felts(&self) -> Seq<Seq<u8>> {
        match self {
            Request::StorageRead(q) => q.felts(),
            Request::StorageWrite(q) => q.felts(),
        }
    }

    pub open spec fn well_formed(&self) -> bool {
        match self {
            Request::StorageRead(q) => q.well_formed(),
            Request::StorageWrite(q) => q.well_formed(),
        }
    }

    pub open spec fn executes_to(&self, before: SyscallHandler, after: SyscallHandler, resp: Response) -> bool {
        match self {
            Request::StorageRead(q) => q.executes_to(before, after, resp),
            Request::StorageWrite(q) => q.executes_to(before, after, resp),
        }
    }

    /// Runs the request's syscall against `handler`.
    pub fn execute(&self, handler: &mut SyscallHandler) -> (r: Result<Response, SyscallError>)
        requires
            self.well_formed(),
            old(handler).wf(),
        ensures
            final(handler).wf(),
            r is Ok,
            self.executes_to(*old(handler), *final(handler), r->Ok_0),
            r->Ok_0.well_formed(),
    {
        match self {
            Request::StorageRead(q) => q.execute(handler),
            Request::StorageWrite(q) => q.execute(handler),
        }
    }
}

impl RequestFactory {
    /// Number of cells the request occupies.
    pub open spec fn request_felts(self) -> nat {
        match self {
            RequestFactory::StorageRead => felts_of::<StorageReadRequest>(),
            RequestFactory::StorageWrite => felts_of::<StorageWriteRequest>(),
        }
    }

    /// Number of cells the response occupies.
    pub open spec fn response_felts(self) -> nat {
        match self {
            RequestFactory::StorageRead => felts_of::<StorageReadResponse>(),
            RequestFactory::StorageWrite => felts_of::<EmptyResponse>(),
        }
    }

    /// Decodes this syscall's request from the cells from `ptr` on.
    pub fn read(&self, vm: &VirtualMachine, ptr: &MemoryPointer) -> (r: Result<Request, SyscallError>)
        ensures
            r is Ok <==> window_resolved(vm_felt_cells(*vm), *ptr, self.request_felts()),
            r is Ok ==> r->Ok_0.factory() == *self && r->Ok_0.well_formed() && r->Ok_0.felts()
                == window(vm_felt_cells(*vm), *ptr, self.request_felts()),
            r is Err ==> r == Err::<Request, SyscallError>(SyscallError::DecodeError),
    {
        match self {
            RequestFactory::StorageRead => match StorageReadRequest::read(vm, ptr) {
                Ok(q) => Ok(Request::StorageRead(q)),
                Err(e) => Err(e),
            },
            RequestFactory::StorageWrite => match StorageWriteRequest::read(vm, ptr) {
                Ok(q) => Ok(Request::StorageWrite(q)),
                Err(e) => Err(e),
            },
        }
    }
}

/// What the registry holds for one selector: the decoding entry point and
/// the word sizes of the request and of the response.
#[derive(Clone, Copy, Debug, PartialEq, Eq, Structural)]
pub struct SyscallInfo {
    pub syscall_request_factory: RequestFactory,
    pub syscall_request_size: usize,
    pub syscall_response_size: usize,
}

/// The registry entry of the syscall that `factory` decodes.
pub open spec fn info_of(factory: RequestFactory) -> SyscallInfo {
    SyscallInfo {
        syscall_request_factory: factory,
        syscall_request_size: factory.request_felts() as usize,
        syscall_response_size: factory.response_felts() as usize,
    }
}

/// The first entry of `entries` under `selector`.
pub open spec fn lookup_in(entries: Seq<(Felt, SyscallInfo)>, selector: Seq<u8>) -> Option<SyscallInfo>
    decreases entries.len(),
{
    if entries.len() == 0 {
        None
    } else if entries[0].0.bytes@ == selector {
        Some(entries[0].1)
    } else {
        lookup_in(entries.drop_first(), selector)
    }
}

/// The registered syscall of a selector value: the storage read under the
/// value of its constant, else the storage write under the value of its.
pub open spec fn registered(selector: Seq<u8>) -> Option<SyscallInfo> {
    if selector.len() == 32 && felt_int(selector) == hex_value(strip_hex_prefixes(STORAGE_READ_SELECTOR@)) {
        Some(info_of(RequestFactory::StorageRead))
    } else if selector.len() == 32 && felt_int(selector) == hex_value(strip_hex_prefixes(STORAGE_WRITE_SELECTOR@)) {
        Some(info_of(RequestFactory::StorageWrite))
    } else {
        None
    }
}

/// Maps each known selector to its syscall's entry; built once, read-only after.
pub struct SyscallRegistry {
    entries: Vec<(Felt, SyscallInfo)>,
}

impl SyscallRegistry {
    /// The entry registered under `selector`.
    pub closed spec fn lookup(&self, selector: Seq<u8>) -> Option<SyscallInfo> {
        lookup_in(self.entries@, selector)
    }

    /// Looks up the entry registered under `selector`.
    pub fn get(&self, selector: &Felt) -> (r: Result<SyscallInfo, SyscallError>)
        ensures
            match self.lookup(selector.bytes@) {
                Some(info) => r == Ok::<SyscallInfo, SyscallError>(info),
                None => r == Err::<SyscallInfo, SyscallError>(SyscallError::SelectorNotFound),
            },
    {
        let mut i: usize = 0;
        assert(self.entries@.subrange(0, self.entries@.len() as int) =~= self.entries@);
        while i < self.entries.len()
            invariant
                i <= self.entries@.len(),
                lookup_in(self.entries@, selector.bytes@) == lookup_in(
                    self.entries@.subrange(i as int, self.entries@.len() as int),
                    selector.bytes@,
                ),
            decreases self.entries@.len() - i,
        {
            let ghost rest = self.entries@.subrange(i as int, self.entries@.len() as int);
            assert(rest.drop_first() =~= self.entries@.subrange(i + 1, self.entries@.len() as int));
            if self.entries[i].0.same_as(selector) {
                return Ok(self.entries[i].1);
            }
            i = i + 1;
        }
        Err(SyscallError::SelectorNotFound)
    }
}

/// Both selector constants parse into field elements.
proof fn lemma_selector_constants_parse()
    ensures
        parses_as_felt(STORAGE_READ_SELECTOR@),
        parses_as_felt(STORAGE_WRITE_SELECTOR@),
{
    reveal_strlit("0x53746f7261676552656164");
    reveal_strlit("0x53746f726167655772697465");
    reveal_with_fuel(strip_hex_prefixes, 2);
    vstd::arithmetic::power2::lemma_pow2_strictly_increases(88, 252);
    vstd::arithmetic::power2::lemma_pow2_strictly_increases(96, 252);
    let r = STORAGE_READ_SELECTOR@;
    let tr = r.subrange(2, 24);
    assert(strip_hex_prefixes(r) == tr);
    assert(forall|i: int| 0 <= i < tr.len() ==> is_hex_digit(#[trigger] tr[i]));
    lemma_hex_value_bound(tr);
    let w = STORAGE_WRITE_SELECTOR@;
    let tw = w.subrange(2, 26);
    assert(strip_hex_prefixes(w) == tw);
    assert(forall|i: int| 0 <= i < tw.len() ==> is_hex_digit(#[trigger] tw[i]));
    lemma_hex_value_bound(tw);
}

/// Builds the registry of the known syscalls. Both selector constants parse,
/// so construction always succeeds; a constant that did not parse would end
/// it with `RegistryConstructionError`.
pub fn get_syscall_info() -> (r: Result<SyscallRegistry, SyscallError>)
    ensures
        r is Ok,
        r is Ok ==> forall|s: Seq<u8>| #[trigger] r->Ok_0.lookup(s) == registered(s),
{
    proof {
        lemma_selector_constants_parse();
    }
    let read_selector = match parse_felt(STORAGE_READ_SELECTOR) {
        Ok(f) => f,
        Err(_) => return Err(SyscallError::RegistryConstructionError),
    };
    let write_selector = match parse_felt(STORAGE_WRITE_SELECTOR) {
        Ok(f) => f,
        Err(_) => return Err(SyscallError::RegistryConstructionError),
    };
    let read_info = SyscallInfo {
        syscall_request_factory: RequestFactory::StorageRead,
        syscall_request_size: size_in_felts::<StorageReadRequest>(),
        syscall_response_size: size_in_felts::<StorageReadResponse>(),
    };
    let write_info = SyscallInfo {
        syscall_request_factory: RequestFactory::StorageWrite,
        syscall_request_size: size_in_felts::<StorageWriteRequest>(),
        syscall_response_size: size_in_felts::<EmptyResponse>(),
    };
    let mut entries: Vec<(Felt, SyscallInfo)> = Vec::new();
    entries.push((read_selector, read_info));
    entries.push((write_selector, write_info));
    let registry = SyscallRegistry { entries };
    assert forall|s: Seq<u8>| #[trigger] registry.lookup(s) == registered(s) by {
        let e = registry.entries@;
        reveal_with_fuel(lookup_in, 3);
        assert(read_info == info_of(RequestFactory::StorageRead));
        assert(write_info == info_of(RequestFactory::StorageWrite));
        assert(e.drop_first().drop_first() =~= Seq::<(Felt, SyscallInfo)>::empty());
        assert(e.drop_first()[0] == e[1]);
        if s.len() == 32 && felt_int(s) == felt_int(read_selector.bytes@) {
            lemma_felt_int_injective(s, read_selector.bytes@);
        }
        if s.len() == 32 && felt_int(s) == felt_int(write_selector.bytes@) {
            lemma_felt_int_injective(s, write_selector.bytes@);
        }
    }
    Ok(registry)
}

} // verus!
