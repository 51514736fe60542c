//! The Global Descriptor Table: a fixed number of 64-bit slots, filled from
//! the front, of which slot 0 is the null descriptor.

use vstd::prelude::*;
use vstd::slice::slice_subrange;
use crate::descriptor::Descriptor;
use crate::error::BootError;
use crate::selector::SegmentSelector;

verus! {

/// The number of slots in a table.
pub const GDT_CAPACITY: usize = 8;

/// The size in bytes of one slot.
pub const GDT_SLOT_SIZE: usize = 8;

/// The selectors of the two segments that the kernel installs at boot.
#[derive(Clone, Copy, Debug, PartialEq, Eq, Structural)]
pub struct SegmentSelectors {
    pub code_segment_selector: SegmentSelector,
    pub tss_segment_selector: SegmentSelector,
}

/// What the processor reads when its table register is loaded: the address
/// of slot 0 and the offset of the table's last byte.
#[derive(Clone, Copy, Debug, PartialEq, Eq, Structural)]
pub struct DescriptorTablePointer {
    pub limit: u16,
    pub base: u64,
}

/// A descriptor table of `GDT_CAPACITY` slots with a running length.
///
/// Its view is the occupied prefix of the slots, in slot order.
pub struct GlobalDescriptorTable {
    table: [u64; 8],
    len: usize,
}

/// The words of a table after `entry` has been inserted behind `words`.
pub open spec fn table_with(words: Seq<u64>, entry: Descriptor) -> Seq<u64> {
    words + entry.words()
}

/// The words of a table after each of `entries` has been inserted behind
/// `words`, in order.
pub open spec fn table_with_all(words: Seq<u64>, entries: Seq<Descriptor>) -> Seq<u64>
    decreases entries.len(),
{
    if entries.len() == 0 {
        words
    } else {
        table_with(table_with_all(words, entries.drop_last()), entries.last())
    }
}

/// The storage of a table whose first `count` slots hold the first `count`
/// of `words` and whose other slots are zero.
spec fn storage_of(words: Seq<u64>, count: nat) -> [u64; 8]
    decreases count,
{
    if count == 0 {
        vstd::array::spec_array_fill_for_copy_type::<u64, 8>(0)
    } else {
        vstd::array::spec_array_update(
            storage_of(words, (count - 1) as nat),
            count - 1,
            words[count - 1],
        )
    }
}

impl View for GlobalDescriptorTable {
    type V = Seq<u64>;

    closed spec fn view(&self) -> Seq<u64> {
        self.table@.subrange(0, self.len as int)
    }
}

impl GlobalDescriptorTable {
    #[verifier::type_invariant]
    spec fn within_capacity(self) -> bool {
        self.len <= GDT_CAPACITY
    }

    /// The table that holds exactly `words`, with zero in every slot behind
    /// them.
    pub closed spec fn spec_from_words(words: Seq<u64>) -> GlobalDescriptorTable {
        GlobalDescriptorTable { table: storage_of(words, words.len()), len: words.len() as usize }
    }

    /// Whether the table is one that the processor can be handed: it holds
    /// at least one slot, and slot 0 is the null descriptor.
    pub open spec fn well_formed(&self) -> bool {
        self@.len() >= 1 && self@[0] == 0
    }

    /// The pointer to a table that holds these words and whose slot 0 lies
    /// at address `base`: its limit is the offset of the last occupied byte.
    pub open spec fn spec_descriptor_table_pointer(&self, base: u64) -> DescriptorTablePointer {
        DescriptorTablePointer { limit: (self@.len() * GDT_SLOT_SIZE - 1) as u16, base }
    }

    /// A table that holds the null descriptor and nothing else.
    pub fn new() -> (table: GlobalDescriptorTable)
        ensures
            table@ == seq![0u64],
            table == Self::spec_from_words(seq![0u64]),
            table.well_formed(),
    {
        let table = GlobalDescriptorTable { table: [0;8], len: 1 };
        proof {
            lemma_storage_of(seq![0u64], 1);
            assert(table.table =~= storage_of(seq![0u64], 1));
            assert(table@ =~= seq![0u64]);
        }
        table
    }

    /// The number of occupied slots.
    pub fn len(&self) -> (len: usize)
        ensures
            len == self@.len(),
            len <= GDT_CAPACITY,
    {
        proof {
            use_type_invariant(self);
        }
        self.len
    }

    /// The occupied slots, in order: what the processor will read.
    pub fn as_raw_slice(&self) -> (words: &[u64])
        ensures
            words@ == self@,
            words@.len() <= GDT_CAPACITY,
    {
        proof {
            use_type_invariant(self);
        }
        slice_subrange(self.table.as_slice(), 0, self.len)
    }

    /// Rebuilds a table from words that were once read from one.
    ///
    /// The words are taken as they are: nothing checks that they begin with
    /// the null descriptor or that they form descriptors at all, so the
    /// table is `well_formed` only if the words are.
    pub fn u_from_raw_slice(slice: &[u64]) -> (table: GlobalDescriptorTable)
        requires
            slice@.len() <= GDT_CAPACITY,
        ensures
            table@ == slice@,
            table == Self::spec_from_words(slice@),
    {
        let len: usize = slice.len();
        let mut table: [u64; 8] = [0;8];
        let mut i: usize = 0;
        while len > i
            invariant
                len == slice@.len(),
                len <= GDT_CAPACITY,
                i <= len,
                table == storage_of(slice@, i as nat),
            decreases len - i,
        {
            table[i] = slice[i];
            i += 1;
            proof {
                assert(table =~= storage_of(slice@, i as nat));
            }
        }
        let rebuilt = GlobalDescriptorTable { table, len };
        proof {
            lemma_storage_of(slice@, len as nat);
            assert(rebuilt@ =~= slice@);
        }
        rebuilt
    }

    /// Writes `value` into the first free slot and returns that slot's
    /// index.
    fn push(&mut self, value: u64) -> (index: usize)
        requires
            old(self)@.len() < GDT_CAPACITY,
        ensures
            final(self)@ == old(self)@.push(value),
            index == old(self)@.len(),
    {
        proof {
            use_type_invariant(&*self);
        }
        let i: usize = self.len;
        self.table[i] = value;
        self.len += 1;
        proof {
            assert(self@ =~= old(self)@.push(value));
        }
        i
    }

    /// Inserts `entry` behind the occupied slots and returns the selector of
    /// its first slot, at the privilege level written in `entry`.
    ///
    /// A user segment takes one slot and a system segment two; the table
    /// must have that many free.
    pub fn add(&mut self, entry: Descriptor) -> (selector: SegmentSelector)
        requires
            old(self)@.len() + entry.words().len() <= GDT_CAPACITY,
        ensures
            final(self)@ == table_with(old(self)@, entry),
            selector == SegmentSelector::spec_new(old(self)@.len() as u16, entry.spec_dpl()),
            selector.spec_index() == old(self)@.len(),
            selector.spec_rpl() == entry.spec_dpl(),
            entry is UserSegment ==> final(self)@.len() == old(self)@.len() + 1,
            entry is SystemSegment ==> final(self)@.len() == old(self)@.len() + 2,
            forall|i: int| 0 <= i < old(self)@.len() ==> final(self)@[i] == old(self)@[i],
            old(self).well_formed() ==> final(self).well_formed(),
    {
        let i: usize = match entry {
            Descriptor::SystemSegment(low, high) => {
                let i: usize = self.push(low);
                self.push(high);
                i
            },
            Descriptor::UserSegment(value) => self.push(value),
        };
        proof {
            assert(self@ =~= table_with(old(self)@, entry));
            crate::selector::lemma_selector_round_trip(i as u16, entry.spec_dpl());
        }
        SegmentSelector::new(i as u16, entry.dpl())
    }

    /// Inserts `entry` as `add` does if the table has room for it, and
    /// otherwise leaves the table as it is and reports
    /// `BootError::CapacityExceeded`.
    pub fn try_add(&mut self, entry: Descriptor) -> (outcome: Result<SegmentSelector, BootError>)
        ensures
            old(self)@.len() + entry.words().len() <= GDT_CAPACITY ==> {
                &&& outcome == Ok::<SegmentSelector, BootError>(
                    SegmentSelector::spec_new(old(self)@.len() as u16, entry.spec_dpl()),
                )
                &&& final(self)@ == table_with(old(self)@, entry)
            },
            old(self)@.len() + entry.words().len() > GDT_CAPACITY ==> {
                &&& outcome == Err::<SegmentSelector, BootError>(BootError::CapacityExceeded)
                &&& final(self)@ == old(self)@
            },
            old(self).well_formed() ==> final(self).well_formed(),
    {
        let used: usize = self.len();
        if entry.slot_count() > GDT_CAPACITY - used {
            Err(BootError::CapacityExceeded)
        } else {
            Ok(self.add(entry))
        }
    }

    /// The pointer through which the processor is told where the table
    /// lies, for a table whose slot 0 is at address `base`.
    ///
    /// The limit is the offset of the last occupied byte, so the table must
    /// hold at least one slot.
    pub fn as_descriptor_table_pointer(&self, base: u64) -> (pointer: DescriptorTablePointer)
        requires
            self@.len() >= 1,
        ensures
            pointer.base == base,
            pointer.limit == self@.len() * GDT_SLOT_SIZE - 1,
            pointer == self.spec_descriptor_table_pointer(base),
    {
        proof {
            use_type_invariant(self);
        }
        DescriptorTablePointer { base, limit: (self.len * GDT_SLOT_SIZE - 1) as u16 }
    }
}

/// The first `count` slots of `storage_of(words, count)` are the first
/// `count` words, and the others are zero.
proof fn lemma_storage_of(words: Seq<u64>, count: nat)
    requires
        count <= words.len(),
        count <= GDT_CAPACITY,
    ensures
        forall|i: int| 0 <= i < count ==> storage_of(words, count)@[i] == words[i],
        forall|i: int| count <= i < GDT_CAPACITY ==> storage_of(words, count)@[i] == 0,
    decreases count,
{
    if count > 0 {
        let before = storage_of(words, (count - 1) as nat);
        lemma_storage_of(words, (count - 1) as nat);
        assert(storage_of(words, count)@ == before@.update(count - 1, words[count - 1]));
        assert forall|i: int| count <= i < GDT_CAPACITY implies storage_of(words, count)@[i]
            == 0 by {
            assert(before@[i] == 0);
        }
    } else {
        assert(forall|i: int|
            0 <= i < GDT_CAPACITY ==> vstd::array::spec_array_fill_for_copy_type::<u64, 8>(
                0,
            )@[i] == 0);
    }
}

/// Inserting any descriptors, one after the other, leaves the null
/// descriptor in slot 0 of a fresh table.
pub proof fn lemma_null_slot_kept(entries: Seq<Descriptor>)
    requires
        table_with_all(seq![0u64], entries).len() <= GDT_CAPACITY,
    ensures
        table_with_all(seq![0u64], entries).len() >= 1,
        table_with_all(seq![0u64], entries)[0] == 0,
{
    let fresh = seq![0u64];
    assert(fresh.len() == 1 && fresh[0] == 0);
    lemma_insertions_keep_prefix(fresh, entries);
}

/// Insertions only append: the words that a table held before are still
/// there, in the same slots.
pub proof fn lemma_insertions_keep_prefix(words: Seq<u64>, entries: Seq<Descriptor>)
    ensures
        table_with_all(words, entries).len() >= words.len(),
        forall|i: int| 0 <= i < words.len() ==> table_with_all(words, entries)[i] == words[i],
    decreases entries.len(),
{
    if entries.len() > 0 {
        lemma_insertions_keep_prefix(words, entries.drop_last());
    }
}

/// A table rebuilt from at most `GDT_CAPACITY` words reads back as exactly
/// those words.
pub proof fn lemma_rebuild_round_trip(words: Seq<u64>)
    requires
        words.len() <= GDT_CAPACITY,
    ensures
        GlobalDescriptorTable::spec_from_words(words)@ == words,
{
    lemma_storage_of(words, words.len());
    assert(GlobalDescriptorTable::spec_from_words(words)@ =~= words);
}

} // verus!
