//! The block database view and the uncommitted storage transaction.
//!
//! The database is a read-only projection for the production core: block
//! lookup is height → content id → record (two steps, both of which must
//! succeed), the accumulated header merkle root is a pure function of the
//! committed headers, and the latest committed height is the single
//! source of truth for the next producible height.  The only way the
//! store changes is that an external committer applies a staged
//! [`StorageTransaction`]; discarding one leaves the store untouched.

use vstd::prelude::*;

use crate::types::{BlockHeader, BlockHeight, CompressedBlock, NotFoundEntity, ProducerError};

verus! {

/// Seed of the header merkle root accumulator at an empty chain.
pub const ROOT_SEED: u64 = 0xCBF2_9CE4_8422_2325;

/// Multiplier folding one more block id into the root accumulator.
pub const ROOT_FOLD: u64 = 0x100_0000_01B3;

/// Multiplier mixing the transaction count into a block id's low half.
pub const ID_MIX: u64 = 0x9E37_79B9;

/// The low 32 bits of a block's content id: a mix of the header fields
/// that are not the height.
pub open spec fn block_id_low(header: BlockHeader) -> int {
    (header.da_height as int + header.transactions_count as int * ID_MIX) % 0x1_0000_0000
}

/// A block's content id: the height in the high half, the header mix in
/// the low half, so distinct heights always give distinct ids.
pub open spec fn block_id_model(header: BlockHeader) -> u64 {
    (header.height as int * 0x1_0000_0000 + block_id_low(header)) as u64
}

/// Folding one block id into the accumulated header root.
pub open spec fn root_mix(prev: u64, id: u64) -> u64 {
    ((prev as int * ROOT_FOLD + id as int) % 0x1_0000_0000_0000_0000) as u64
}

/// The accumulated header merkle root at every height: entry `h` is a
/// pure function of the block ids at heights `0..=h`, so recomputing it
/// for the same committed chain always yields the same digest.
pub open spec fn root_chain(ids: Seq<u64>) -> Seq<u64>
    decreases ids.len(),
{
    if ids.len() == 0 {
        Seq::empty()
    } else {
        let prev_roots = root_chain(ids.drop_last());
        let prev = if prev_roots.len() == 0 {
            ROOT_SEED
        } else {
            prev_roots.last()
        };
        prev_roots.push(root_mix(prev, ids.last()))
    }
}

/// Computes a header's content id.
pub fn block_id(header: &BlockHeader) -> (r: u64)
    ensures
        r == block_id_model(*header),
{
    let count: u128 = header.transactions_count as u128;
    let da: u128 = header.da_height as u128;
    proof {
        assert(count * 0x9E37_79B9 <= 0xFFFF_FFFF_FFFF_FFFF * 0x9E37_79B9) by (nonlinear_arith)
            requires
                count <= 0xFFFF_FFFF_FFFF_FFFF,
        ;
    }
    let low: u64 = ((da + count * 0x9E37_79B9) % 0x1_0000_0000) as u64;
    (header.height as u64) * 0x1_0000_0000 + low
}

/// Distinct heights give distinct content ids: the height occupies the
/// id's high half, above the 32-bit header mix.
pub proof fn lemma_block_id_determines_height(a: BlockHeader, b: BlockHeader)
    requires
        block_id_model(a) == block_id_model(b),
    ensures
        a.height == b.height,
{
    let la = block_id_low(a);
    let lb = block_id_low(b);
    assert(0 <= la < 0x1_0000_0000);
    assert(0 <= lb < 0x1_0000_0000);
    let va = a.height as int * 0x1_0000_0000 + la;
    let vb = b.height as int * 0x1_0000_0000 + lb;
    assert(va < 0x1_0000_0000_0000_0000);
    assert(vb < 0x1_0000_0000_0000_0000);
    if a.height < b.height {
        assert((a.height as int + 1) * 0x1_0000_0000 <= b.height as int * 0x1_0000_0000)
            by (nonlinear_arith)
            requires
                a.height as int + 1 <= b.height as int,
        ;
        assert(false);
    }
    if b.height < a.height {
        assert((b.height as int + 1) * 0x1_0000_0000 <= a.height as int * 0x1_0000_0000)
            by (nonlinear_arith)
            requires
                b.height as int + 1 <= a.height as int,
        ;
        assert(false);
    }
}

/// Folds one block id into the accumulated root.
fn root_step(prev: u64, id: u64) -> (r: u64)
    ensures
        r == root_mix(prev, id),
{
    let p: u128 = prev as u128;
    proof {
        assert(p * 0x100_0000_01B3 <= 0xFFFF_FFFF_FFFF_FFFF * 0x100_0000_01B3) by (nonlinear_arith)
            requires
                p <= 0xFFFF_FFFF_FFFF_FFFF,
        ;
    }
    let t: u128 = p * 0x100_0000_01B3 + (id as u128);
    (t % 0x1_0000_0000_0000_0000) as u64
}

/// The persistent block store, as the production core sees it: the
/// height-to-id table, the id-to-record table, the accumulated header
/// roots, and the live coin state the engine executes against.
pub struct Database {
    /// Height-to-id table: entry `h` is the content id of the block at
    /// height `h`.
    pub ids: Vec<u64>,
    /// Id-to-record table, keyed by content id; lookups search by id.
    pub blocks: Vec<(u64, CompressedBlock)>,
    /// Accumulated header merkle root at every committed height.
    pub roots: Vec<u64>,
    /// The live coin state after the latest committed block.
    pub coins: Vec<u64>,
}

impl Database {
    /// Well-formedness: the three tables cover exactly the committed
    /// heights, ids are the content ids of the stored headers (so the
    /// id table is injective), and the roots are the chain of the ids.
    pub open spec fn wf(self) -> bool {
        &&& self.ids@.len() == self.blocks@.len()
        &&& self.roots@.len() == self.blocks@.len()
        &&& self.blocks@.len() <= 0x1_0000_0000
        &&& forall|h: int|
            0 <= h < self.blocks@.len() ==> {
                &&& (#[trigger] self.blocks@[h]).0 == self.ids@[h]
                &&& self.blocks@[h].1.header.height as int == h
                &&& self.ids@[h] == block_id_model(self.blocks@[h].1.header)
            }
        &&& self.roots@ == root_chain(self.ids@)
    }

    /// The height the next produced block must carry.
    pub open spec fn next_height(self) -> int {
        self.blocks@.len() as int
    }

    /// An empty chain over a given initial coin state.
    pub fn new(initial_coins: Vec<u64>) -> (db: Database)
        ensures
            db.wf(),
            db.blocks@.len() == 0,
            db.coins@ == initial_coins@,
    {
        let db = Database {
            ids: Vec::new(),
            blocks: Vec::new(),
            roots: Vec::new(),
            coins: initial_coins,
        };
        proof {
            assert(db.roots@ =~= root_chain(db.ids@));
        }
        db
    }

    /// First lookup step: the content id committed at a height, if any.
    pub fn get_block_id(&self, height: BlockHeight) -> (r: Option<u64>)
        requires
            self.wf(),
        ensures
            match r {
                Some(id) => (height as int) < self.blocks@.len() && id == self.ids@[height as int],
                None => (height as int) >= self.blocks@.len(),
            },
    {
        if (height as usize) < self.ids.len() {
            Some(self.ids[height as usize])
        } else {
            None
        }
    }

    /// Resolves a height to its committed block: height → id, then
    /// id → record; both steps must succeed.  Returns exactly the stored
    /// block when the height is committed, `NotFound` otherwise.
    pub fn get_block(&self, height: BlockHeight) -> (r: Result<&CompressedBlock, ProducerError>)
        requires
            self.wf(),
        ensures
            match r {
                Ok(b) => (height as int) < self.blocks@.len() && *b == self.blocks@[height as int].1,
                Err(e) => (height as int) >= self.blocks@.len() && e == (ProducerError::NotFound {
                    entity: NotFoundEntity::BlockId,
                }),
            },
    {
        let id = match self.get_block_id(height) {
            Some(id) => id,
            None => {
                return Err(ProducerError::NotFound { entity: NotFoundEntity::BlockId });
            },
        };
        let mut j: usize = 0;
        while j < self.blocks.len()
            invariant
                self.wf(),
                j <= self.blocks.len(),
                (height as int) < self.blocks@.len(),
                id == self.ids@[height as int],
                forall|k: int| 0 <= k < j ==> (#[trigger] self.blocks@[k]).0 != id,
            decreases self.blocks.len() - j,
        {
            if self.blocks[j].0 == id {
                proof {
                    lemma_block_id_determines_height(
                        self.blocks@[j as int].1.header,
                        self.blocks@[height as int].1.header,
                    );
                }
                return Ok(&self.blocks[j].1);
            }
            j += 1;
        }
        proof {
            assert(self.blocks@[height as int].0 == id);
            assert(false);
        }
        Err(ProducerError::NotFound { entity: NotFoundEntity::Block })
    }

    /// The accumulated merkle root over all headers up to the height, or
    /// `NotFound` when no root is committed there.
    pub fn block_header_merkle_root(&self, height: BlockHeight) -> (r: Result<
        u64,
        ProducerError,
    >)
        requires
            self.wf(),
        ensures
            match r {
                Ok(root) => (height as int) < self.blocks@.len() && root == root_chain(
                    self.ids@,
                )[height as int],
                Err(e) => (height as int) >= self.blocks@.len() && e == (ProducerError::NotFound {
                    entity: NotFoundEntity::HeaderRoot,
                }),
            },
    {
        if (height as usize) < self.roots.len() {
            Ok(self.roots[height as usize])
        } else {
            Err(ProducerError::NotFound { entity: NotFoundEntity::HeaderRoot })
        }
    }

    /// The latest committed height: what the orchestrator consults to
    /// decide the next producible height.  An empty chain has none.
    pub fn current_block_height(&self) -> (r: Result<BlockHeight, ProducerError>)
        requires
            self.wf(),
        ensures
            match r {
                Ok(h) => self.blocks@.len() > 0 && h as int == self.blocks@.len() - 1,
                Err(e) => self.blocks@.len() == 0 && e == (ProducerError::NotFound {
                    entity: NotFoundEntity::Height,
                }),
            },
    {
        if self.blocks.len() == 0 {
            Err(ProducerError::NotFound { entity: NotFoundEntity::Height })
        } else {
            Ok((self.blocks.len() - 1) as BlockHeight)
        }
    }
}

/// A staged set of state mutations not yet applied to the durable store:
/// the produced block, its content id, and the coin state it leaves
/// behind.  Visible only to its owner until committed or discarded.
#[derive(Debug)]
pub struct StorageTransaction {
    /// Content id of the staged block.
    pub block_id: u64,
    /// The staged block itself.
    pub block: CompressedBlock,
    /// The coin state after executing the staged block.
    pub coins_after: Vec<u64>,
}

impl StorageTransaction {
    /// Applies the staged writes to the durable store: the block is
    /// appended at the next height, the root chain is extended by its id,
    /// and the coin state is replaced.  This is the only operation in the
    /// library that mutates a database.
    pub fn commit(self, db: &mut Database)
        requires
            old(db).wf(),
            self.block.header.height as int == old(db).next_height(),
            self.block_id == block_id_model(self.block.header),
        ensures
            final(db).wf(),
            final(db).ids@ == old(db).ids@.push(self.block_id),
            final(db).blocks@ == old(db).blocks@.push((self.block_id, self.block)),
            final(db).roots@ == root_chain(old(db).ids@.push(self.block_id)),
            final(db).coins@ == self.coins_after@,
    {
        let prev: u64 = if db.roots.len() == 0 {
            ROOT_SEED
        } else {
            self.read_last_root(db)
        };
        let root = root_step(prev, self.block_id);
        let id = self.block_id;
        db.ids.push(id);
        db.blocks.push((id, self.block));
        db.roots.push(root);
        db.coins = self.coins_after;
        proof {
            assert(db.ids@.drop_last() =~= old(db).ids@);
            assert(db.roots@ =~= root_chain(db.ids@));
        }
    }

    /// The root the chain currently ends in.
    fn read_last_root(&self, db: &Database) -> (r: u64)
        requires
            db.roots@.len() > 0,
        ensures
            r == db.roots@.last(),
    {
        db.roots[db.roots.len() - 1]
    }

    /// Abandons the staged writes.  The storage transaction never touched
    /// the durable store, so dropping it has no observable effect on any
    /// later read.
    pub fn discard(self) {
    }
}

} // verus!
