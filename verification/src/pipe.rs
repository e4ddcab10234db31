//! The ingestion pipeline's verified core: the cursor and node view, the
//! loop's phase decision, and the batch extractor that turns fetched
//! blocks, receipts and logs into pending statement rows.
//!
//! The I/O layer runs the loop: it refreshes the node view, fetches the
//! block the extractor asks for, hands the results back, and commits the
//! rendered statements in one store transaction before the cursor moves.

use vstd::prelude::*;

use crate::builder::{header_spec, SqlInsert};
use crate::entities::{Block, Log, Receipt, Reward, Topic, Transaction};
use crate::reward::{block_reward, reward_total};

verus! {

/// The most blocks one batch may hold, bounding the size of a single
/// statement and the store transaction's footprint.
pub const MAX_BLOCKS_PER_BATCH: u32 = 100;

/// The failure taxonomy: a node call failed, a row could not be
/// rendered, or the store rejected a transaction.
#[derive(Clone, Copy, Debug, PartialEq, Eq, Structural)]
pub enum PipeError {
    NodeUnavailable,
    EncodingFailure,
    StoreFailure,
}

/// Pipeline state: the highest fully committed block number, the node's
/// reported height, and whether the node is still syncing.
pub struct PipeState {
    pub last_db_block: u64,
    pub last_node_block: u64,
    pub syncing: bool,
}

/// The loop's three logical phases.
#[derive(Clone, Copy, Debug, PartialEq, Eq, Structural)]
pub enum PipePhase {
    Syncing,
    CatchingUp,
    Idle,
}

/// Which phase a state is in: syncing nodes are waited out, a cursor
/// behind the node height means batches are pulled, otherwise idle.
pub open spec fn spec_phase(st: PipeState) -> PipePhase {
    if st.syncing {
        PipePhase::Syncing
    } else if st.last_db_block < st.last_node_block {
        PipePhase::CatchingUp
    } else {
        PipePhase::Idle
    }
}

/// Decides the loop's next move from the current state.
pub fn phase(st: &PipeState) -> (p: PipePhase)
    ensures
        p == spec_phase(*st),
{
    if st.syncing {
        PipePhase::Syncing
    } else if st.last_db_block < st.last_node_block {
        PipePhase::CatchingUp
    } else {
        PipePhase::Idle
    }
}

/// The cursor re-derived at startup from the store's highest committed
/// block number: zero when the store is empty.
pub open spec fn spec_initial_cursor(row: Option<i64>) -> int {
    match row {
        Option::Some(v) => v as int,
        Option::None => 0,
    }
}

/// Turns the startup scalar query's result into the initial cursor.
pub fn initial_cursor(row: Option<i64>) -> (r: u64)
    requires
        match row {
            Option::Some(v) => v >= 0,
            Option::None => true,
        },
    ensures
        r == spec_initial_cursor(row),
{
    match row {
        Option::Some(v) => v as u64,
        Option::None => 0,
    }
}

/// Installs a fresh node height and sync status; the cursor is untouched.
pub fn update_node_info(st: &mut PipeState, node_height: u64, is_syncing: bool)
    ensures
        final(st).last_node_block == node_height,
        final(st).syncing == is_syncing,
        final(st).last_db_block == old(st).last_db_block,
{
    st.last_node_block = node_height;
    st.syncing = is_syncing;
}

/// The `(gas used, gas price)` pairs of the transactions with a
/// resolvable receipt, in transaction order; a transaction without one
/// contributes nothing to the fee sum.
pub open spec fn fees_of(txs: Seq<Transaction>, receipts: Seq<Option<Receipt>>) -> Seq<(u64, u128)>
    decreases txs.len(),
{
    if txs.len() == 0 {
        Seq::empty()
    } else {
        let rest = fees_of(txs.drop_last(), receipts.drop_last());
        match receipts.last() {
            Option::Some(rc) => rest.push((rc.gas_used, txs.last().gas_price)),
            Option::None => rest,
        }
    }
}

proof fn lemma_fees_of_step(txs: Seq<Transaction>, receipts: Seq<Option<Receipt>>, i: int)
    requires
        0 <= i < txs.len(),
        receipts.len() == txs.len(),
    ensures
        fees_of(txs.take(i + 1), receipts.take(i + 1)) == match receipts[i] {
            Option::Some(rc) => fees_of(txs.take(i), receipts.take(i)).push(
                (rc.gas_used, txs[i].gas_price),
            ),
            Option::None => fees_of(txs.take(i), receipts.take(i)),
        },
{
    assert(txs.take(i + 1).drop_last() =~= txs.take(i));
    assert(receipts.take(i + 1).drop_last() =~= receipts.take(i));
    assert(txs.take(i + 1).last() == txs[i]);
    assert(receipts.take(i + 1).last() == receipts[i]);
}

/// Pairs each transaction's gas price with its receipt's gas used,
/// skipping transactions without a receipt.
pub fn collect_fees(txs: &Vec<Transaction>, receipts: &Vec<Option<Receipt>>) -> (r: Vec<
    (u64, u128),
>)
    requires
        receipts@.len() == txs@.len(),
    ensures
        r@ == fees_of(txs@, receipts@),
{
    let mut out: Vec<(u64, u128)> = Vec::new();
    let mut i: usize = 0;
    proof {
        assert(fees_of(txs@.take(0), receipts@.take(0)) =~= Seq::<(u64, u128)>::empty());
    }
    while i < txs.len()
        invariant
            receipts@.len() == txs@.len(),
            i <= txs@.len(),
            out@ == fees_of(txs@.take(i as int), receipts@.take(i as int)),
        decreases txs@.len() - i,
    {
        proof {
            lemma_fees_of_step(txs@, receipts@, i as int);
        }
        match &receipts[i] {
            Option::Some(rc) => {
                out.push((rc.gas_used, txs[i].gas_price));
            },
            Option::None => {},
        }
        i += 1;
    }
    proof {
        assert(txs@.take(txs@.len() as int) =~= txs@);
        assert(receipts@.take(receipts@.len() as int) =~= receipts@);
    }
    out
}

/// The view of one pending topic row.
pub open spec fn topic_view(t: Topic) -> (Seq<u8>, Seq<u8>) {
    (t.topic@, t.log_address@)
}

/// The views of a run of pending topic rows, in order.
pub open spec fn topic_row_views(rows: Seq<Topic>) -> Seq<(Seq<u8>, Seq<u8>)> {
    rows.map_values(|t: Topic| topic_view(t))
}

proof fn lemma_topic_row_views_push(rows: Seq<Topic>, t: Topic)
    ensures
        topic_row_views(rows.push(t)) == topic_row_views(rows).push(topic_view(t)),
{
    assert(topic_row_views(rows.push(t)) =~= topic_row_views(rows).push(topic_view(t)));
}

proof fn lemma_topic_row_views_concat(a: Seq<Topic>, b: Seq<Topic>)
    ensures
        topic_row_views(a + b) == topic_row_views(a) + topic_row_views(b),
{
    assert(topic_row_views(a + b) =~= topic_row_views(a) + topic_row_views(b));
}

/// The `(topic, owning address)` pairs one log contributes, by view.
pub open spec fn log_topic_views(l: Log) -> Seq<(Seq<u8>, Seq<u8>)> {
    Seq::new(l.topics@.len(), |i: int| ((l.topics@[i])@, l.address@))
}

/// The `(topic, owning address)` pairs a run of logs contributes, in
/// log order, by view.
pub open spec fn topic_views_of(logs: Seq<Log>) -> Seq<(Seq<u8>, Seq<u8>)>
    decreases logs.len(),
{
    if logs.len() == 0 {
        Seq::empty()
    } else {
        topic_views_of(logs.drop_last()) + log_topic_views(logs.last())
    }
}

proof fn lemma_topic_views_step(logs: Seq<Log>, i: int)
    requires
        0 <= i < logs.len(),
    ensures
        topic_views_of(logs.take(i + 1)) == topic_views_of(logs.take(i)) + log_topic_views(logs[i]),
{
    assert(logs.take(i + 1).drop_last() =~= logs.take(i));
    assert(logs.take(i + 1).last() == logs[i]);
}

fn clone_bytes(v: &Vec<u8>) -> (r: Vec<u8>)
    ensures
        r@ == v@,
{
    let r = v.clone();
    proof {
        assert(r@ =~= v@);
    }
    r
}

/// Builds one topic row per topic of each log, carrying the owning
/// log's address, in log order.
pub fn topics_from_logs(logs: &Vec<Log>) -> (r: Vec<Topic>)
    ensures
        topic_row_views(r@) == topic_views_of(logs@),
{
    let mut out: Vec<Topic> = Vec::new();
    let mut i: usize = 0;
    proof {
        assert(topic_row_views(out@) =~= topic_views_of(logs@.take(0)));
    }
    while i < logs.len()
        invariant
            i <= logs@.len(),
            topic_row_views(out@) == topic_views_of(logs@.take(i as int)),
        decreases logs@.len() - i,
    {
        let log = &logs[i];
        let ghost base = topic_row_views(out@);
        let mut k: usize = 0;
        proof {
            assert(base + log_topic_views(*log).take(0) =~= base);
        }
        while k < log.topics.len()
            invariant
                k <= log.topics@.len(),
                topic_row_views(out@) == base + log_topic_views(*log).take(k as int),
            decreases log.topics@.len() - k,
        {
            let t = Topic { topic: clone_bytes(&log.topics[k]), log_address: clone_bytes(
                &log.address,
            ) };
            proof {
                assert(topic_view(t) == log_topic_views(*log)[k as int]);
            }
            let ghost prev = out@;
            out.push(t);
            proof {
                lemma_topic_row_views_push(prev, t);
                assert(log_topic_views(*log).take(k as int + 1) =~= log_topic_views(*log).take(
                    k as int,
                ).push(log_topic_views(*log)[k as int]));
                assert(topic_row_views(out@) =~= base + log_topic_views(*log).take(k as int + 1));
            }
            k += 1;
        }
        proof {
            assert(log_topic_views(*log).take(log.topics@.len() as int) =~= log_topic_views(*log));
            lemma_topic_views_step(logs@, i as int);
            assert(topic_row_views(out@) =~= topic_views_of(logs@.take(i as int + 1)));
        }
        i += 1;
    }
    proof {
        assert(logs@.take(logs@.len() as int) =~= logs@);
    }
    out
}

/// One batch in progress: the contiguous block range walked so far and
/// the pending rows for each entity type. The extractor never talks to
/// the node or the store itself; it only says which block it wants next
/// and accumulates what it is handed.
pub struct Extractor {
    pub first: u64,
    pub next: u64,
    pub bound: u64,
    pub blocks: SqlInsert<Block>,
    pub transactions: SqlInsert<Transaction>,
    pub rewards: SqlInsert<Reward>,
    pub logs: SqlInsert<Log>,
    pub topics: SqlInsert<Topic>,
}

impl Extractor {
    /// How many blocks this batch has processed.
    pub open spec fn processed(&self) -> int {
        self.next - self.first
    }

    /// Well-formed: the walked range starts at the batch's first block,
    /// stays within the node height bound and the batch cap, and every
    /// builder carries its entity's statement header.
    pub open spec fn wf(&self) -> bool {
        &&& self.first <= self.next
        &&& self.bound < u64::MAX
        &&& self.processed() <= MAX_BLOCKS_PER_BATCH
        &&& self.blocks.header() == header_spec::<Block>()
        &&& self.transactions.header() == header_spec::<Transaction>()
        &&& self.rewards.header() == header_spec::<Reward>()
        &&& self.logs.header() == header_spec::<Log>()
        &&& self.topics.header() == header_spec::<Topic>()
    }

    /// The block the extractor wants next: `None` once the batch cap is
    /// hit or the node height bound is passed.
    pub open spec fn spec_wants(&self) -> Option<u64> {
        if self.processed() < MAX_BLOCKS_PER_BATCH && self.next <= self.bound {
            Option::Some(self.next)
        } else {
            Option::None
        }
    }

    /// Opens a batch right above the cursor: nothing fetched yet, no
    /// pending rows, one statement header per entity type.
    pub fn begin(st: &PipeState) -> (e: Extractor)
        requires
            st.last_db_block < u64::MAX,
            st.last_node_block < u64::MAX,
        ensures
            e.wf(),
            e.first == st.last_db_block + 1,
            e.next == e.first,
            e.bound == st.last_node_block,
            e.processed() == 0,
            e.blocks.rows() == Seq::<Block>::empty(),
            e.transactions.rows() == Seq::<Transaction>::empty(),
            e.rewards.rows() == Seq::<Reward>::empty(),
            e.logs.rows() == Seq::<Log>::empty(),
            e.topics.rows() == Seq::<Topic>::empty(),
            st.last_db_block >= st.last_node_block ==> e.spec_wants() is None,
    {
        let mut blocks: SqlInsert<Block> = SqlInsert::new(1096);
        let mut transactions: SqlInsert<Transaction> = SqlInsert::new(8096);
        let mut rewards: SqlInsert<Reward> = SqlInsert::new(1024);
        let mut logs: SqlInsert<Log> = SqlInsert::new(4096);
        let mut topics: SqlInsert<Topic> = SqlInsert::new(1096);
        blocks.start();
        transactions.start();
        rewards.start();
        logs.start();
        topics.start();
        proof {
            assert(blocks.header() =~= header_spec::<Block>());
            assert(transactions.header() =~= header_spec::<Transaction>());
            assert(rewards.header() =~= header_spec::<Reward>());
            assert(logs.header() =~= header_spec::<Log>());
            assert(topics.header() =~= header_spec::<Topic>());
        }
        Extractor {
            first: st.last_db_block + 1,
            next: st.last_db_block + 1,
            bound: st.last_node_block,
            blocks,
            transactions,
            rewards,
            logs,
            topics,
        }
    }

    /// Which block to fetch next, if the batch is still open.
    pub fn wants_block(&self) -> (r: Option<u64>)
        requires
            self.wf(),
        ensures
            r == self.spec_wants(),
    {
        let done = self.next - self.first;
        if done < MAX_BLOCKS_PER_BATCH as u64 && self.next <= self.bound {
            Option::Some(self.next)
        } else {
            Option::None
        }
    }

    /// Folds one fetched block into the batch: its header row, one row
    /// per transaction, its miner-reward row, one row per event log, and
    /// one topic row per log topic carrying the log's address. Fails
    /// only when the reward does not fit its 128-bit column, leaving the
    /// batch untouched.
    pub fn add_block(
        &mut self,
        block: Block,
        uncle_count: u32,
        txs: Vec<Transaction>,
        receipts: &Vec<Option<Receipt>>,
        logs: Vec<Log>,
    ) -> (r: Result<(), PipeError>)
        requires
            old(self).wf(),
            old(self).spec_wants() == Option::Some(block.number),
            receipts@.len() == txs@.len(),
        ensures
            final(self).first == old(self).first,
            final(self).bound == old(self).bound,
            match r {
                Result::Ok(()) => {
                    &&& final(self).wf()
                    &&& final(self).next == old(self).next + 1
                    &&& final(self).blocks.rows() == old(self).blocks.rows().push(block)
                    &&& final(self).transactions.rows() == old(self).transactions.rows() + txs@
                    &&& reward_total(uncle_count as nat, fees_of(txs@, receipts@)) <= u128::MAX
                    &&& final(self).rewards.rows() == old(self).rewards.rows().push(
                        Reward {
                            block_number: block.number,
                            reward: reward_total(uncle_count as nat, fees_of(txs@, receipts@))
                                as u128,
                        },
                    )
                    &&& final(self).logs.rows() == old(self).logs.rows() + logs@
                    &&& topic_row_views(final(self).topics.rows()) == topic_row_views(
                        old(self).topics.rows(),
                    ) + topic_views_of(logs@)
                },
                Result::Err(e) => {
                    &&& e == PipeError::EncodingFailure
                    &&& reward_total(uncle_count as nat, fees_of(txs@, receipts@)) > u128::MAX
                    &&& *final(self) == *old(self)
                },
            },
    {
        let fees = collect_fees(&txs, receipts);
        let reward_value: u128 = match block_reward(uncle_count, &fees) {
            Option::Some(v) => v,
            Option::None => {
                return Result::Err(PipeError::EncodingFailure);
            },
        };
        let topic_rows = topics_from_logs(&logs);
        let block_number = block.number;
        self.blocks.insert(block);
        self.rewards.insert(Reward { block_number, reward: reward_value });
        self.transactions.insert_all(txs);
        self.logs.insert_all(logs);
        self.topics.insert_all(topic_rows);
        self.next = self.next + 1;
        proof {
            lemma_topic_row_views_concat(old(self).topics.rows(), topic_rows@);
        }
        Result::Ok(())
    }

    /// How many blocks this batch processed so far.
    pub fn processed_count(&self) -> (r: u64)
        requires
            self.wf(),
        ensures
            r == self.processed(),
    {
        self.next - self.first
    }
}

/// Advances the cursor to the last block the committed batch covered.
/// The cursor never moves backwards: monotonic progress.
pub fn commit_cursor(st: &mut PipeState, e: &Extractor)
    requires
        e.wf(),
        e.first == old(st).last_db_block + 1,
    ensures
        final(st).last_db_block == old(st).last_db_block + e.processed(),
        final(st).last_db_block >= old(st).last_db_block,
        final(st).last_node_block == old(st).last_node_block,
        final(st).syncing == old(st).syncing,
{
    st.last_db_block = st.last_db_block + (e.next - e.first);
}

/// Law: the cursor re-derived at startup from the store's highest
/// committed block equals that block, and a batch opened above it only
/// ever asks for strictly higher block numbers: a restart fetches no
/// committed block again.
pub proof fn law_resume_requests_only_new(max_committed: i64, e: Extractor)
    requires
        max_committed >= 0,
        e.wf(),
        e.first == spec_initial_cursor(Option::Some(max_committed)) + 1,
    ensures
        spec_initial_cursor(Option::Some(max_committed)) == max_committed,
        forall|b: u64| e.spec_wants() == Option::Some(b) ==> b > max_committed,
{
}

/// Law: with the cursor at or above the node height, an open batch that
/// has moved past the cursor requests nothing further.
pub proof fn law_caught_up_requests_nothing(st: PipeState, e: Extractor)
    requires
        e.wf(),
        e.bound == st.last_node_block,
        e.next > st.last_db_block,
        st.last_db_block >= st.last_node_block,
    ensures
        e.spec_wants() is None,
{
}

} // verus!
