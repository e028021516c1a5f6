//! Fixed-size block storage for one record of the byte store.
//!
//! An [`Item`] accumulates appended bytes across a list of [`Block`]s; every
//! block but the last is completely filled, so the item abstracts to the
//! concatenation of the filled prefixes of its blocks.

use vstd::prelude::*;

use crate::calculation;
use crate::spec_calculation;

verus! {

/// Number of payload bytes one block holds.
pub const BLOCK_SIZE: usize = 1024 * 16;

/// A fixed-capacity byte block: a zero-initialised buffer of `BLOCK_SIZE`
/// bytes, of which the first `used` are filled.
pub struct Block {
    block: Vec<u8>,
    used: usize,
}

impl View for Block {
    type V = Seq<u8>;

    /// A block abstracts to its filled prefix.
    closed spec fn view(&self) -> Seq<u8> {
        self.block@.take(self.used as int)
    }
}

impl Block {
    pub closed spec fn wf(self) -> bool {
        &&& self.block@.len() == BLOCK_SIZE
        &&& self.used <= BLOCK_SIZE
        &&& forall|i: int| self.used <= i < BLOCK_SIZE ==> self.block@[i] == 0u8
    }

    /// Whether no further byte fits into this block.
    pub open spec fn is_full(self) -> bool {
        self@.len() == BLOCK_SIZE
    }

    /// A fresh, entirely unused block.
    pub fn new() -> (r: Block)
        ensures
            r.wf(),
            r@ == Seq::<u8>::empty(),
    {
        let mut block: Vec<u8> = Vec::new();
        let mut i: usize = 0;
        while i < BLOCK_SIZE
            invariant
                i <= BLOCK_SIZE,
                block@.len() == i,
                forall|j: int| 0 <= j < i ==> block@[j] == 0u8,
            decreases BLOCK_SIZE - i,
        {
            block.push(0u8);
            i = i + 1;
        }
        proof {
            assert(block@.take(0) =~= Seq::<u8>::empty());
        }
        Block { block, used: 0 }
    }

    /// Whether the block is full, decided executably.
    pub fn full(&self) -> (r: bool)
        requires
            self.wf(),
        ensures
            r == self.is_full(),
    {
        self.used == BLOCK_SIZE
    }

    /// The first `size` bytes of the buffer: the filled prefix, padded with
    /// zeroes where the request runs past what was written.
    pub fn get(&self, size: usize) -> (r: Vec<u8>)
        requires
            self.wf(),
            size <= BLOCK_SIZE,
        ensures
            r@.len() == size,
            forall|i: int|
                0 <= i < size ==> r@[i] == (if i < self@.len() {
                    self@[i]
                } else {
                    0u8
                }),
    {
        let mut r: Vec<u8> = Vec::new();
        let mut i: usize = 0;
        while i < size
            invariant
                self.wf(),
                size <= BLOCK_SIZE,
                i <= size,
                r@.len() == i,
                forall|j: int|
                    0 <= j < i ==> r@[j] == (if j < self@.len() {
                        self@[j]
                    } else {
                        0u8
                    }),
            decreases size - i,
        {
            r.push(self.block[i]);
            i = i + 1;
        }
        r
    }

    /// Copy as much of `bytes[cursor..]` as fits into the free space of this
    /// block; the return value is how many bytes did not fit.
    pub fn put(&mut self, bytes: &Vec<u8>, cursor: usize) -> (remaining: usize)
        requires
            old(self).wf(),
            cursor <= bytes@.len(),
        ensures
            final(self).wf(),
            remaining <= bytes@.len() - cursor,
            final(self)@ == old(self)@ + bytes@.subrange(cursor as int, bytes@.len() - remaining),
            bytes@.len() - cursor <= BLOCK_SIZE - old(self)@.len() ==> remaining == 0,
            bytes@.len() - cursor > BLOCK_SIZE - old(self)@.len() ==> remaining == bytes@.len()
                - cursor - (BLOCK_SIZE - old(self)@.len()),
    {
        let want = bytes.len() - cursor;
        let avail = BLOCK_SIZE - self.used;
        let k = if want <= avail {
            want
        } else {
            avail
        };
        let mut j: usize = 0;
        while j < k
            invariant
                j <= k,
                self.used == old(self).used,
                self.used + k <= BLOCK_SIZE,
                cursor + k <= bytes@.len(),
                bytes@.len() <= usize::MAX,
                self.block@.len() == BLOCK_SIZE,
                forall|i: int| 0 <= i < self.used ==> self.block@[i] == old(self).block@[i],
                forall|i: int|
                    self.used <= i < self.used + j ==> self.block@[i] == bytes@[cursor + (i
                        - self.used)],
                forall|i: int| self.used + j <= i < BLOCK_SIZE ==> self.block@[i] == 0u8,
            decreases k - j,
        {
            self.block.set(self.used + j, bytes[cursor + j]);
            j = j + 1;
        }
        self.used = self.used + k;
        proof {
            assert(final(self)@ =~= old(self)@ + bytes@.subrange(
                cursor as int,
                cursor + k,
            ));
        }
        want - k
    }
}

/// The concatenation of the filled prefixes of a list of blocks.
pub open spec fn blocks_view(s: Seq<Block>) -> Seq<u8>
    decreases s.len(),
{
    if s.len() == 0 {
        Seq::empty()
    } else {
        blocks_view(s.drop_last()) + s.last()@
    }
}

proof fn lemma_blocks_view_push(s: Seq<Block>, b: Block)
    ensures
        blocks_view(s.push(b)) == blocks_view(s) + b@,
{
    assert(s.push(b).drop_last() =~= s);
    assert(s.push(b).last() == b);
}

/// One record's accumulated bytes, laid out across fixed-size blocks.
pub struct Item {
    blocks: Vec<Block>,
}

impl View for Item {
    type V = Seq<u8>;

    /// An item abstracts to the bytes appended to it so far, in order.
    closed spec fn view(&self) -> Seq<u8> {
        blocks_view(self.blocks@)
    }
}

impl Item {
    pub closed spec fn wf(self) -> bool {
        &&& self.blocks@.len() >= 1
        &&& forall|i: int| 0 <= i < self.blocks@.len() ==> self.blocks@[i].wf()
        &&& forall|i: int| 0 <= i < self.blocks@.len() - 1 ==> self.blocks@[i].is_full()
    }

    /// Append `bytes`, stamped with its checksum, to this item.
    pub fn put(&mut self, bytes: Vec<u8>)
        requires
            old(self).wf(),
            bytes@.len() >= 1,
        ensures
            final(self).wf(),
            final(self)@ == old(self)@ + spec_calculation(bytes@),
    {
        let data = calculation(bytes);
        let ghost data_view = data@;
        let mut cursor: usize = 0;
        proof {
            assert(data_view.subrange(0, 0) =~= Seq::<u8>::empty());
            assert(old(self)@ + Seq::<u8>::empty() =~= old(self)@);
        }
        while cursor < data.len()
            invariant
                self.wf(),
                data@ == data_view,
                cursor <= data_view.len(),
                self@ == old(self)@ + data_view.subrange(0, cursor as int),
            decreases data_view.len() - cursor,
        {
            let ghost start_blocks = self.blocks@;
            let mut last = self.blocks.pop().unwrap();
            if last.full() {
                self.blocks.push(last);
                proof {
                    assert(self.blocks@ =~= start_blocks);
                }
                last = Block::new();
            }
            let ghost base_blocks = self.blocks@;
            let ghost last_before = last;
            let remaining = last.put(&data, cursor);
            let new_cursor = data.len() - remaining;
            self.blocks.push(last);
            proof {
                lemma_blocks_view_push(base_blocks, last);
                assert(last@ == last_before@ + data_view.subrange(
                    cursor as int,
                    new_cursor as int,
                ));
                assert(blocks_view(base_blocks) + (last_before@ + data_view.subrange(
                    cursor as int,
                    new_cursor as int,
                )) =~= (blocks_view(base_blocks) + last_before@) + data_view.subrange(
                    cursor as int,
                    new_cursor as int,
                ));
                // the bytes gathered so far equal the view at the top of this
                // iteration
                if last_before@.len() == 0 {
                    assert(blocks_view(base_blocks) + last_before@ =~= blocks_view(base_blocks));
                    assert(blocks_view(base_blocks) =~= blocks_view(start_blocks));
                } else {
                    assert(base_blocks =~= start_blocks.drop_last());
                    assert(blocks_view(base_blocks) + last_before@ =~= blocks_view(start_blocks));
                }
                assert(data_view.subrange(0, new_cursor as int) =~= data_view.subrange(
                    0,
                    cursor as int,
                ) + data_view.subrange(cursor as int, new_cursor as int));
                assert(self@ =~= old(self)@ + data_view.subrange(0, new_cursor as int));
            }
            cursor = new_cursor;
        }
        proof {
            assert(data_view.subrange(0, data_view.len() as int) =~= data_view);
        }
    }

    /// Assemble `size` bytes from randomly chosen blocks of this item and
    /// stamp the result with its checksum. Which blocks supply the bytes is
    /// left to chance; only the length of the answer is fixed.
    pub fn get(&self, size: usize) -> (r: Vec<u8>)
        requires
            self.wf(),
            1 <= size,
        ensures
            r@.len() == size,
    {
        let mut raw: Vec<u8> = Vec::new();
        while raw.len() < size
            invariant
                self.wf(),
                raw@.len() <= size,
            decreases size - raw@.len(),
        {
            let want = size - raw.len();
            let chunk = if want <= BLOCK_SIZE {
                want
            } else {
                BLOCK_SIZE
            };
            let index = (random_u64() % (self.blocks.len() as u64)) as usize;
            let mut piece = self.blocks[index].get(chunk);
            raw.append(&mut piece);
        }
        calculation(raw)
    }
}

impl Default for Item {
    /// A fresh item holding no bytes, backed by one empty block.
    fn default() -> (r: Item)
        ensures
            r.wf(),
            r@ == Seq::<u8>::empty(),
    {
        let first = Block::new();
        let blocks = vec![first];
        proof {
            assert(blocks_view(Seq::<Block>::empty()) == Seq::<u8>::empty());
            assert(blocks@.drop_last() =~= Seq::<Block>::empty());
            assert(blocks@.last() == first);
            assert(blocks_view(blocks@) =~= Seq::<u8>::empty());
        }
        Item { blocks }
    }
}

/// Relies on rand::random: a machine word drawn from the thread's generator;
/// nothing is promised of the value.
#[verifier::external_body]
fn random_u64() -> u64 {
    rand::random::<u64>()
}

} // verus!
