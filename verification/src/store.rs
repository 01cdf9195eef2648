//! The block store behind the logical unit: the interface the command
//! executor consumes, and a RAM disk that provides it.

use vstd::prelude::*;
use vstd::slice::slice_to_vec;

verus! {

/// Whether `blocks` is what a store of `block_size`-byte blocks may hold:
/// every block has that size, and size and count fit in 32 bits.
pub open spec fn well_formed(block_size: nat, blocks: Seq<Seq<u8>>) -> bool {
    &&& block_size <= u32::MAX
    &&& blocks.len() <= u32::MAX
    &&& forall|i: int| 0 <= i < blocks.len() ==> (#[trigger] blocks[i]).len() == block_size
}

/// Whether two stores agree on every block outside `lo..hi`.
pub open spec fn same_outside(a: Seq<Seq<u8>>, b: Seq<Seq<u8>>, lo: int, hi: int) -> bool {
    &&& a.len() == b.len()
    &&& forall|i: int| 0 <= i < a.len() && !(lo <= i < hi) ==> #[trigger] a[i] == b[i]
}

/// Whether every block of `lo..hi` is among the reliable ones.
pub open spec fn all_reliable(reliable: Set<int>, lo: int, hi: int) -> bool {
    forall|i: int| lo <= i < hi ==> #[trigger] reliable.contains(i)
}

/// A store of fixed-size blocks addressed by logical block address.
pub trait BlockStore {
    /// Size of one block in bytes.
    spec fn block_size(&self) -> nat;

    /// The contents, block by block.
    spec fn blocks(&self) -> Seq<Seq<u8>>;

    /// The addresses of the blocks whose reads and writes are sure to
    /// succeed. A store that cannot tell names none.
    spec fn reliable(&self) -> Set<int>;

    /// Block size and block count.
    fn capacity(&self) -> (c: (u32, u32))
        requires
            well_formed(self.block_size(), self.blocks()),
        ensures
            c.0 as nat == self.block_size(),
            c.1 as nat == self.blocks().len(),
    ;

    /// Reads one block; `None` when the medium fails, which it does not
    /// on a reliable block.
    fn read_block(&self, lba: u32) -> (r: Option<Vec<u8>>)
        requires
            well_formed(self.block_size(), self.blocks()),
            (lba as int) < self.blocks().len(),
        ensures
            r matches Some(b) ==> b@ == self.blocks()[lba as int],
            self.reliable().contains(lba as int) ==> r is Some,
    ;

    /// Writes one block; `false` when the medium fails, which it does not
    /// on a reliable block, and in which case only that block may have
    /// changed. Writing leaves the reliable blocks reliable.
    fn write_block(&mut self, lba: u32, data: &[u8]) -> (ok: bool)
        requires
            well_formed(old(self).block_size(), old(self).blocks()),
            (lba as int) < old(self).blocks().len(),
            data@.len() == old(self).block_size(),
        ensures
            final(self).block_size() == old(self).block_size(),
            well_formed(final(self).block_size(), final(self).blocks()),
            same_outside(old(self).blocks(), final(self).blocks(), lba as int, lba as int + 1),
            ok ==> final(self).blocks()[lba as int] == data@,
            final(self).reliable() == old(self).reliable(),
            old(self).reliable().contains(lba as int) ==> ok,
    ;
}

/// A block store held in memory. One block can be marked bad: reads and
/// writes of it fail, as on a worn medium.
pub struct RamDisk {
    block_size: u32,
    data: Vec<Vec<u8>>,
    bad_block: Option<u32>,
}

impl RamDisk {
    /// The block marked bad, if any.
    pub closed spec fn bad(&self) -> Option<u32> {
        self.bad_block
    }

    /// A disk of `block_count` blocks of `block_size` zero bytes, none bad.
    pub fn new(block_size: u32, block_count: u32) -> (d: RamDisk)
        ensures
            d.bad() is None,
            d.block_size() == block_size,
            d.blocks() == Seq::new(
                block_count as nat,
                |i: int| Seq::new(block_size as nat, |j: int| 0u8),
            ),
            well_formed(d.block_size(), d.blocks()),
    {
        let mut data: Vec<Vec<u8>> = Vec::new();
        let mut i: u32 = 0;
        while i < block_count
            invariant
                i <= block_count,
                data@.len() == i,
                forall|k: int| 0 <= k < i ==> (#[trigger] data@[k])@ == Seq::new(block_size as nat, |j: int| 0u8),
            decreases block_count - i,
        {
            let mut block: Vec<u8> = Vec::new();
            let mut j: u32 = 0;
            while j < block_size
                invariant
                    j <= block_size,
                    block@ == Seq::new(j as nat, |j: int| 0u8),
                decreases block_size - j,
            {
                block.push(0u8);
                j = j + 1;
                assert(block@ =~= Seq::new(j as nat, |j: int| 0u8));
            }
            data.push(block);
            i = i + 1;
        }
        let d = RamDisk { block_size, data, bad_block: None };
        assert(d.blocks() =~= Seq::new(block_count as nat, |i: int| Seq::new(block_size as nat, |j: int| 0u8)));
        d
    }

    /// Marks one block bad, or none.
    pub fn set_bad_block(&mut self, lba: Option<u32>)
        ensures
            final(self).bad() == lba,
            final(self).block_size() == old(self).block_size(),
            final(self).blocks() == old(self).blocks(),
    {
        self.bad_block = lba;
    }

    fn is_bad(&self, lba: u32) -> (b: bool)
        ensures
            b == (self.bad() == Some(lba)),
    {
        match self.bad_block {
            Some(x) => x == lba,
            None => false,
        }
    }
}

impl BlockStore for RamDisk {
    closed spec fn block_size(&self) -> nat {
        self.block_size as nat
    }

    closed spec fn blocks(&self) -> Seq<Seq<u8>> {
        Seq::new(self.data@.len(), |i: int| self.data@[i]@)
    }

    /// Every block but the one marked bad.
    open spec fn reliable(&self) -> Set<int> {
        Set::new(
            |i: int|
                match self.bad() {
                    Some(b) => i != b as int,
                    None => true,
                },
        )
    }

    fn capacity(&self) -> (c: (u32, u32)) {
        (self.block_size, self.data.len() as u32)
    }

    /// Succeeds on every block but the one marked bad.
    fn read_block(&self, lba: u32) -> (r: Option<Vec<u8>>)
        ensures
            r is Some <==> self.bad() != Some(lba),
    {
        if self.is_bad(lba) {
            None
        } else {
            Some(slice_to_vec(self.data[lba as usize].as_slice()))
        }
    }

    /// Succeeds on every block but the one marked bad, which it leaves as it was.
    fn write_block(&mut self, lba: u32, data: &[u8]) -> (ok: bool)
        ensures
            ok <==> old(self).bad() != Some(lba),
            !ok ==> final(self).blocks() == old(self).blocks(),
            final(self).bad() == old(self).bad(),
    {
        if self.is_bad(lba) {
            false
        } else {
            self.data.set(lba as usize, slice_to_vec(data));
            assert(self.blocks().len() == old(self).blocks().len());
            assert(self.blocks()[lba as int] == data@);
            assert forall|i: int| 0 <= i < self.blocks().len() implies (#[trigger] self.blocks()[i]).len()
                == self.block_size() by {
                if i != lba as int {
                    assert(self.blocks()[i] == old(self).blocks()[i]);
                }
            }
            assert(same_outside(old(self).blocks(), self.blocks(), lba as int, lba as int + 1));
            true
        }
    }
}

} // verus!
