use vstd::prelude::*;

use cairo_vm::types::relocatable::{MaybeRelocatable, Relocatable};
use cairo_vm::vm::errors::memory_errors::MemoryError;
use cairo_vm::vm::vm_core::VirtualMachine;
use cairo_vm::Felt252;

use crate::felt::Felt;

verus! {

#[verifier::external_type_specification]
#[verifier::external_body]
pub struct ExVirtualMachine(VirtualMachine);

#[verifier::external_type_specification]
#[verifier::external_body]
pub struct ExMemoryError(MemoryError);

/// The cells of a VM's memory that hold an integer, keyed by (segment,
/// offset), each as the 32 big-endian bytes of its field element.
pub uninterp spec fn vm_felt_cells(vm: VirtualMachine) -> Map<(int, int), Seq<u8>>;

/// The allocated segments of a VM's memory, keyed by segment index (negative
/// for temporary segments), each with the number of cells its storage holds.
pub uninterp spec fn vm_segment_lens(vm: VirtualMachine) -> Map<int, nat>;

/// The cells of a VM's memory that hold a value of any kind.
pub uninterp spec fn vm_set_cells(vm: VirtualMachine) -> Set<(int, int)>;

/// The segments of a VM's memory that carry a validation rule.
pub uninterp spec fn vm_checked_segments(vm: VirtualMachine) -> Set<int>;

/// The cell at `k` lies in an allocated segment, within the cells its
/// storage already holds, holds no value, and no validation rule watches it.
pub open spec fn cell_free(vm: VirtualMachine, k: (int, int)) -> bool {
    &&& vm_segment_lens(vm).contains_key(k.0)
    &&& k.1 < vm_segment_lens(vm)[k.0]
    &&& !vm_set_cells(vm).contains(k)
    &&& !vm_checked_segments(vm).contains(k.0)
}

/// The `n` cells from `p` on are all free.
pub open spec fn window_free(vm: VirtualMachine, p: MemoryPointer, n: nat) -> bool {
    forall|i: int|
        #![trigger p.key_at(i)]
        0 <= i < n ==> p.offset + i <= usize::MAX && cell_free(vm, p.key_at(i))
}

/// An address in VM memory: a segment and an offset into it.
#[derive(Clone, Copy, Debug, PartialEq, Eq, Structural)]
pub struct MemoryPointer {
    pub segment_index: isize,
    pub offset: usize,
}

impl MemoryPointer {
    pub open spec fn key(self) -> (int, int) {
        (self.segment_index as int, self.offset as int)
    }

    pub open spec fn key_at(self, i: int) -> (int, int) {
        (self.segment_index as int, self.offset + i)
    }
}

/// The `n` cells from `p` on all hold an integer, at offsets that fit a `usize`.
pub open spec fn window_resolved(cells: Map<(int, int), Seq<u8>>, p: MemoryPointer, n: nat) -> bool {
    forall|i: int|
        #![trigger p.key_at(i)]
        0 <= i < n ==> p.offset + i <= usize::MAX && cells.contains_key(p.key_at(i))
}

/// The contents of the `n` cells from `p` on.
pub open spec fn window(cells: Map<(int, int), Seq<u8>>, p: MemoryPointer, n: nat) -> Seq<Seq<u8>> {
    Seq::new(n, |i: int| cells[p.key_at(i)])
}

/// `cells` after writing `felts` one by one into the cells from `p` on.
pub open spec fn write_window(
    cells: Map<(int, int), Seq<u8>>,
    p: MemoryPointer,
    felts: Seq<Seq<u8>>,
) -> Map<(int, int), Seq<u8>>
    decreases felts.len(),
{
    if felts.len() == 0 {
        cells
    } else {
        write_window(cells, p, felts.drop_last()).insert(
            p.key_at(felts.len() - 1),
            felts.last(),
        )
    }
}

/// Cells written from `p` on read back as what was written: the window of
/// the written length resolves and holds exactly the written elements.
pub proof fn lemma_write_then_read(cells: Map<(int, int), Seq<u8>>, p: MemoryPointer, felts: Seq<Seq<u8>>)
    requires
        p.offset + felts.len() <= usize::MAX + 1,
    ensures
        window_resolved(write_window(cells, p, felts), p, felts.len()),
        window(write_window(cells, p, felts), p, felts.len()) == felts,
    decreases felts.len(),
{
    if felts.len() > 0 {
        let init = felts.drop_last();
        lemma_write_then_read(cells, p, init);
        let w = write_window(cells, p, felts);
        assert forall|i: int| 0 <= i < felts.len() implies w.contains_key(#[trigger] p.key_at(i)) && w[p.key_at(i)] == felts[i] by {
            if i < felts.len() - 1 {
                assert(window(write_window(cells, p, init), p, init.len())[i] == init[i]);
            }
        }
        assert(window(w, p, felts.len()) =~= felts);
    }
}

/// Reads the field element `k` cells after `p`; `None` where the offset
/// overflows or the cell holds no integer.
pub(crate) fn read_felt_at(vm: &VirtualMachine, p: MemoryPointer, k: usize) -> (r: Option<Felt>)
    ensures
        r is Some <==> (p.offset + k <= usize::MAX && vm_felt_cells(*vm).contains_key(p.key_at(k as int))),
        r is Some ==> r->0.bytes@ == vm_felt_cells(*vm)[p.key_at(k as int)] && r->0.is_canonical(),
{
    match p.offset.checked_add(k) {
        Some(offset) => {
            let q = MemoryPointer { segment_index: p.segment_index, offset };
            assert(q.key() == p.key_at(k as int));
            get_felt(vm, q)
        },
        None => None,
    }
}

/// Relies on `VirtualMachine::get_maybe` and `Felt252::to_bytes_be`: the cell's
/// integer, as a reduced field element, where the cell holds one.
#[verifier::external_body]
fn get_felt(vm: &VirtualMachine, p: MemoryPointer) -> (r: Option<Felt>)
    ensures
        r is Some <==> vm_felt_cells(*vm).contains_key(p.key()),
        r is Some ==> r->0.bytes@ == vm_felt_cells(*vm)[p.key()] && r->0.is_canonical(),
{
    match vm.get_maybe(&Relocatable::from((p.segment_index, p.offset))) {
        Some(MaybeRelocatable::Int(f)) => Some(Felt { bytes: f.to_bytes_be() }),
        _ => None,
    }
}

/// Relies on `Felt252::from_bytes_be` and `VirtualMachine::insert_value`:
/// memory is write-once, so a cell that holds another integer is refused;
/// on success the cell holds the element and no other integer cell changed.
/// A failed insertion leaves the cell as it was or, where a validation rule
/// failed after the insertion, holding the element. A segment that is not
/// allocated is refused before anything changes; a free cell is accepted.
#[verifier::external_body]
pub(crate) fn insert_felt(vm: &mut VirtualMachine, p: MemoryPointer, value: &Felt) -> (r: Result<(), MemoryError>)
    requires
        value.is_canonical(),
    ensures
        r is Ok ==> vm_felt_cells(*final(vm)) == vm_felt_cells(*old(vm)).insert(p.key(), value.bytes@),
        r is Err ==> vm_felt_cells(*final(vm)) == vm_felt_cells(*old(vm))
            || vm_felt_cells(*final(vm)) == vm_felt_cells(*old(vm)).insert(p.key(), value.bytes@),
        vm_felt_cells(*old(vm)).contains_key(p.key()) && vm_felt_cells(*old(vm))[p.key()] != value.bytes@
            ==> r is Err,
        !vm_segment_lens(*old(vm)).contains_key(p.segment_index as int) ==> r is Err && *final(vm) == *old(vm),
        vm_segment_lens(*old(vm)).contains_key(p.segment_index as int)
            && p.offset < vm_segment_lens(*old(vm))[p.segment_index as int]
            && !vm_set_cells(*old(vm)).contains(p.key())
            && !vm_checked_segments(*old(vm)).contains(p.segment_index as int) ==> r is Ok,
{
    vm.insert_value(Relocatable::from((p.segment_index, p.offset)), Felt252::from_bytes_be(&value.bytes))
}

} // verus!
