use ethpipe::entities::{Block, Log, Receipt, Transaction};
use ethpipe::pipe::{
    commit_cursor, initial_cursor, phase, topics_from_logs, update_node_info, Extractor,
    PipeError, PipePhase, PipeState,
};
use ethpipe::reward::{block_reward, STATIC_BLOCK_REWARD, UNCLE_BLOCK_REWARD};

fn tx(hash: u8, gas_price: u128) -> Transaction {
    Transaction {
        hash: vec![hash],
        nonce: 0,
        block_hash: vec![0x01],
        block_number: 1,
        transaction_index: 0,
        from: vec![0x02],
        to: None,
        value: 0,
        gas: 21000,
        gas_price,
    }
}

fn block(number: u64) -> Block {
    Block { number, hash: vec![number as u8], timestamp: 1500000000 + number }
}

#[test]
fn reward_two_transactions_no_uncles() {
    let fees = vec![(21000u64, 1_000_000_000u128), (50000u64, 2_000_000_000u128)];
    assert_eq!(
        block_reward(0, &fees),
        Some(3_000_000_000_000_000_000 + 21000 * 1_000_000_000 + 50000 * 2_000_000_000)
    );
    assert_eq!(block_reward(0, &fees), Some(3_000_121_000_000_000_000));
}

#[test]
fn reward_uncles_only() {
    assert_eq!(block_reward(2, &vec![]), Some(STATIC_BLOCK_REWARD + 2 * UNCLE_BLOCK_REWARD));
    assert_eq!(block_reward(0, &vec![]), Some(3_000_000_000_000_000_000));
    assert_eq!(UNCLE_BLOCK_REWARD, 2_625_000_000_000_000_000);
}

#[test]
fn reward_overflow_is_reported() {
    let fees = vec![(u64::MAX, u128::MAX)];
    assert_eq!(block_reward(0, &fees), None);
}

#[test]
fn initial_cursor_from_store() {
    assert_eq!(initial_cursor(None), 0);
    assert_eq!(initial_cursor(Some(0)), 0);
    assert_eq!(initial_cursor(Some(7)), 7);
}

#[test]
fn phase_decisions() {
    let syncing = PipeState { last_db_block: 0, last_node_block: 10, syncing: true };
    assert_eq!(phase(&syncing), PipePhase::Syncing);
    let behind = PipeState { last_db_block: 3, last_node_block: 10, syncing: false };
    assert_eq!(phase(&behind), PipePhase::CatchingUp);
    let caught_up = PipeState { last_db_block: 10, last_node_block: 10, syncing: false };
    assert_eq!(phase(&caught_up), PipePhase::Idle);
}

#[test]
fn update_node_info_keeps_cursor() {
    let mut st = PipeState { last_db_block: 5, last_node_block: 0, syncing: false };
    update_node_info(&mut st, 12, true);
    assert_eq!(st.last_db_block, 5);
    assert_eq!(st.last_node_block, 12);
    assert!(st.syncing);
}

#[test]
fn empty_batch_when_caught_up() {
    let st = PipeState { last_db_block: 5, last_node_block: 5, syncing: false };
    let e = Extractor::begin(&st);
    assert_eq!(e.wants_block(), None);
    assert_eq!(e.processed_count(), 0);
    assert!(e.blocks.get_sql().is_none());
    assert!(e.transactions.get_sql().is_none());
    assert!(e.rewards.get_sql().is_none());
    assert!(e.logs.get_sql().is_none());
    assert!(e.topics.get_sql().is_none());
}

#[test]
fn batch_walks_range_and_advances_cursor() {
    let mut st = PipeState { last_db_block: 0, last_node_block: 2, syncing: false };
    let mut e = Extractor::begin(&st);

    assert_eq!(e.wants_block(), Some(1));
    let receipts = vec![Some(Receipt { transaction_hash: vec![0x10], gas_used: 21000 })];
    let r = e.add_block(block(1), 0, vec![tx(0x10, 100)], &receipts, vec![]);
    assert_eq!(r, Ok(()));

    assert_eq!(e.wants_block(), Some(2));
    let no_receipts: Vec<Option<Receipt>> = vec![];
    let r = e.add_block(block(2), 1, vec![], &no_receipts, vec![]);
    assert_eq!(r, Ok(()));

    assert_eq!(e.wants_block(), None);
    assert_eq!(e.processed_count(), 2);

    let blocks_sql = e.blocks.get_sql().unwrap();
    assert!(blocks_sql.starts_with("INSERT INTO blocks"));
    let rewards_sql = e.rewards.get_sql().unwrap();
    assert!(rewards_sql.contains(&format!("(1, {})", 3_000_000_000_000_000_000u128 + 21000 * 100)));
    assert!(rewards_sql.contains(&format!("(2, {})", STATIC_BLOCK_REWARD + UNCLE_BLOCK_REWARD)));

    commit_cursor(&mut st, &e);
    assert_eq!(st.last_db_block, 2);
    assert_eq!(phase(&st), PipePhase::Idle);
}

#[test]
fn resume_requests_only_above_cursor() {
    // Blocks up to 2 are committed; a restart re-derives the cursor and
    // the next batch asks for block 3 first, refetching nothing.
    let cursor = initial_cursor(Some(2));
    assert_eq!(cursor, 2);
    let st = PipeState { last_db_block: cursor, last_node_block: 5, syncing: false };
    let e = Extractor::begin(&st);
    assert_eq!(e.wants_block(), Some(3));

    let done = PipeState { last_db_block: cursor, last_node_block: 2, syncing: false };
    let e = Extractor::begin(&done);
    assert_eq!(e.wants_block(), None);
}

#[test]
fn batch_caps_at_hundred_blocks() {
    let st = PipeState { last_db_block: 0, last_node_block: 500, syncing: false };
    let mut e = Extractor::begin(&st);
    let mut n: u64 = 0;
    while let Some(b) = e.wants_block() {
        let no_receipts: Vec<Option<Receipt>> = vec![];
        e.add_block(block(b), 0, vec![], &no_receipts, vec![]).unwrap();
        n += 1;
    }
    assert_eq!(n, 100);
    assert_eq!(e.processed_count(), 100);
    assert_eq!(e.wants_block(), None);
}

#[test]
fn reward_overflow_aborts_block() {
    let st = PipeState { last_db_block: 0, last_node_block: 1, syncing: false };
    let mut e = Extractor::begin(&st);
    let receipts = vec![Some(Receipt { transaction_hash: vec![0x10], gas_used: u64::MAX })];
    let r = e.add_block(block(1), 0, vec![tx(0x10, u128::MAX)], &receipts, vec![]);
    assert_eq!(r, Err(PipeError::EncodingFailure));
    // The batch is untouched: the block was not recorded.
    assert_eq!(e.wants_block(), Some(1));
    assert!(e.blocks.get_sql().is_none());
    assert!(e.rewards.get_sql().is_none());
}

#[test]
fn transaction_without_receipt_contributes_no_fee() {
    let st = PipeState { last_db_block: 0, last_node_block: 1, syncing: false };
    let mut e = Extractor::begin(&st);
    let receipts: Vec<Option<Receipt>> = vec![None];
    e.add_block(block(1), 0, vec![tx(0x10, 77)], &receipts, vec![]).unwrap();
    let rewards_sql = e.rewards.get_sql().unwrap();
    assert!(rewards_sql.contains("(1, 3000000000000000000)"));
    // The transaction row itself is still inserted.
    assert_eq!(e.transactions.count(), 1);
}

#[test]
fn logs_expand_into_topic_rows() {
    let log = Log {
        address: vec![0xaa],
        data: vec![],
        block_hash: None,
        block_number: Some(1),
        transaction_hash: None,
        transaction_index: None,
        log_index: Some(0),
        transaction_log_index: None,
        log_type: None,
        removed: None,
        topics: vec![vec![0x11], vec![0x22]],
    };
    let topics = topics_from_logs(&vec![log]);
    assert_eq!(topics.len(), 2);
    assert_eq!(topics[0].topic, vec![0x11]);
    assert_eq!(topics[0].log_address, vec![0xaa]);
    assert_eq!(topics[1].topic, vec![0x22]);
    assert_eq!(topics[1].log_address, vec![0xaa]);
}

#[test]
fn batch_collects_logs_and_topics() {
    let st = PipeState { last_db_block: 0, last_node_block: 1, syncing: false };
    let mut e = Extractor::begin(&st);
    let log = Log {
        address: vec![0xaa],
        data: vec![0x05],
        block_hash: None,
        block_number: Some(1),
        transaction_hash: None,
        transaction_index: None,
        log_index: Some(0),
        transaction_log_index: None,
        log_type: None,
        removed: None,
        topics: vec![vec![0x11], vec![0x22]],
    };
    let no_receipts: Vec<Option<Receipt>> = vec![];
    e.add_block(block(1), 0, vec![], &no_receipts, vec![log]).unwrap();
    let logs_sql = e.logs.get_sql().unwrap();
    assert!(logs_sql.contains("DECODE('aa', 'hex'), DECODE('05', 'hex')"));
    let topics_sql = e.topics.get_sql().unwrap();
    assert_eq!(
        topics_sql,
        "INSERT INTO topics (topic, log_address) VALUES\n(DECODE('11', 'hex'), DECODE('aa', 'hex')),\n(DECODE('22', 'hex'), DECODE('aa', 'hex'))"
    );
}
