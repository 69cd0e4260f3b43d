use vstd::prelude::*;

use crate::felt::Felt;

verus! {

/// What `entries` stores at `key`: the value of the latest write there.
pub open spec fn stored_in(entries: Seq<(Felt, Felt)>, key: Seq<u8>) -> Option<Seq<u8>>
    decreases entries.len(),
{
    if entries.len() == 0 {
        None
    } else if entries.last().0.bytes@ == key {
        Some(entries.last().1.bytes@)
    } else {
        stored_in(entries.drop_last(), key)
    }
}

/// The contract storage that syscalls read and write: an append-only log of
/// writes, in which the latest write to an address holds its value.
pub struct SyscallHandler {
    entries: Vec<(Felt, Felt)>,
}

impl SyscallHandler {
    /// Every write made so far, oldest first, as (address, value).
    pub closed spec fn writes(&self) -> Seq<(Seq<u8>, Seq<u8>)> {
        self.entries@.map_values(|e: (Felt, Felt)| (e.0.bytes@, e.1.bytes@))
    }

    /// The value stored at `key`, if any was written.
    pub closed spec fn stored(&self, key: Seq<u8>) -> Option<Seq<u8>> {
        stored_in(self.entries@, key)
    }

    /// Every stored value is a reduced field element.
    pub closed spec fn wf(&self) -> bool {
        forall|i: int| 0 <= i < self.entries@.len() ==> (#[trigger] self.entries@[i]).1.is_canonical()
    }

    /// A handler whose storage is empty.
    pub fn new() -> (r: SyscallHandler)
        ensures
            r.wf(),
            r.writes() == Seq::<(Seq<u8>, Seq<u8>)>::empty(),
            forall|k: Seq<u8>| r.stored(k) is None,
    {
        let r = SyscallHandler { entries: Vec::new() };
        assert(r.writes() =~= Seq::<(Seq<u8>, Seq<u8>)>::empty());
        r
    }

    /// Reads the storage at `address`; an address never written holds zero.
    pub fn read_storage(&self, address: &Felt) -> (r: Felt)
        requires
            self.wf(),
        ensures
            r.is_canonical(),
            match self.stored(address.bytes@) {
                Some(v) => r.bytes@ == v,
                None => r.value() == 0,
            },
    {
        let mut i: usize = self.entries.len();
        assert(self.entries@.subrange(0, i as int) =~= self.entries@);
        while i > 0
            invariant
                i <= self.entries@.len(),
                self.wf(),
                stored_in(self.entries@, address.bytes@) == stored_in(
                    self.entries@.subrange(0, i as int),
                    address.bytes@,
                ),
            decreases i,
        {
            let ghost prefix = self.entries@.subrange(0, i as int);
            assert(prefix.drop_last() =~= self.entries@.subrange(0, i - 1));
            assert(prefix.last() == self.entries@[i - 1]);
            if self.entries[i - 1].0.same_as(address) {
                return self.entries[i - 1].1;
            }
            i = i - 1;
        }
        assert(self.entries@.subrange(0, 0) =~= Seq::<(Felt, Felt)>::empty());
        Felt::from_u64(0)
    }

    /// Writes `value` at `address`; every other address keeps its value.
    pub fn write_storage(&mut self, address: &Felt, value: &Felt)
        requires
            old(self).wf(),
            value.is_canonical(),
        ensures
            final(self).wf(),
            final(self).writes() == old(self).writes().push((address.bytes@, value.bytes@)),
            final(self).stored(address.bytes@) == Some(value.bytes@),
            forall|k: Seq<u8>| k != address.bytes@ ==> #[trigger] final(self).stored(k) == old(self).stored(k),
    {
        self.entries.push((*address, *value));
        assert(self.entries@.drop_last() =~= old(self).entries@);
        assert(self.writes() =~= old(self).writes().push((address.bytes@, value.bytes@)));
    }
}

} // verus!
