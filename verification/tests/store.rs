//! Tests of the byte-store layer: checksum, blocks, items, shards.

use shard_affinity::affinity::AffinityShard;
use shard_affinity::cache::CacheCell;
use shard_affinity::calculation;
use shard_affinity::item::Block;
use shard_affinity::item::BLOCK_SIZE;
use shard_affinity::item::Item;
use shard_affinity::local_set::LocalShard;
use shard_affinity::local_set::ShardReply;
use shard_affinity::local_set::ShardTask;
use shard_affinity::threading::ThreadingLoad;

#[test]
fn calculation_stamps_sum_onto_first_byte() {
    // sum = 1 + 2 + 3 = 6; first byte becomes 1 + 6 = 7
    assert_eq!(calculation(vec![1, 2, 3]), vec![7, 2, 3]);
}

#[test]
fn calculation_single_byte() {
    // sum = 5; first byte becomes 5 + 5 = 10
    assert_eq!(calculation(vec![5]), vec![10]);
}

#[test]
fn calculation_wraps() {
    // sum = (250 + 10) % 256 = 4; first byte becomes (250 + 4) % 256 = 254
    assert_eq!(calculation(vec![250, 10]), vec![254, 10]);
}

#[test]
fn block_starts_zeroed() {
    let b = Block::new();
    assert_eq!(b.get(4), vec![0, 0, 0, 0]);
}

#[test]
fn block_put_then_get() {
    let mut b = Block::new();
    let remaining = b.put(&vec![1, 2, 3], 0);
    assert_eq!(remaining, 0);
    assert_eq!(b.get(3), vec![1, 2, 3]);
    // past the filled prefix the block still reads as zeroes
    assert_eq!(b.get(5), vec![1, 2, 3, 0, 0]);
}

#[test]
fn block_put_from_cursor() {
    let mut b = Block::new();
    let remaining = b.put(&vec![9, 8, 7, 6], 2);
    assert_eq!(remaining, 0);
    assert_eq!(b.get(2), vec![7, 6]);
}

#[test]
fn block_put_reports_overflow() {
    let mut b = Block::new();
    let data = vec![1u8; BLOCK_SIZE + 10];
    let remaining = b.put(&data, 0);
    assert_eq!(remaining, 10);
    let more = b.put(&data, 0);
    // the block is full: nothing fits any more
    assert_eq!(more, data.len());
}

#[test]
fn item_get_has_requested_length() {
    let mut item = Item::default();
    item.put(vec![1, 2, 3]);
    assert_eq!(item.get(5).len(), 5);
    assert_eq!(item.get(1).len(), 1);
}

#[test]
fn item_put_across_blocks() {
    let mut item = Item::default();
    // more than one block's worth, in two appends
    item.put(vec![3u8; BLOCK_SIZE + 17]);
    item.put(vec![4u8; 33]);
    assert_eq!(item.get(100).len(), 100);
}

#[test]
fn cache_cell_get_absent_is_none() {
    let cell = CacheCell::new();
    assert!(cell.get(7, 10).is_none());
}

#[test]
fn cache_cell_append_then_get() {
    let mut cell = CacheCell::new();
    cell.append(7, vec![1, 2, 3]);
    let got = cell.get(7, 10).unwrap();
    assert_eq!(got.len(), 10);
    // a different id is untouched
    assert!(cell.get(8, 10).is_none());
}

#[test]
fn threading_load_round_trip() {
    let mut load = ThreadingLoad::new();
    assert!(load.get(1, 4).is_none());
    load.append(1, vec![1, 2, 3, 4]);
    let got = load.get(1, 8).unwrap();
    assert_eq!(got.len(), 8);
    // the sibling record one whole shard ring away stays empty
    assert!(load.get(129, 8).is_none());
}

#[test]
fn threading_load_shard_id() {
    let load = ThreadingLoad::new();
    assert_eq!(load.shard_id(0), 0);
    assert_eq!(load.shard_id(130), 2);
}

#[test]
fn affinity_shard_round_trip() {
    let mut shard = AffinityShard::new();
    assert!(shard.get(3, 4).is_none());
    shard.append(3, vec![9, 9]);
    assert_eq!(shard.get(3, 6).unwrap().len(), 6);
    // ids that share the slot alias the same record
    assert!(shard.get(13, 6).is_some());
    // ids in another slot do not
    assert!(shard.get(4, 6).is_none());
}

#[test]
fn affinity_lane_choice() {
    assert_eq!(shard_affinity::affinity::shard_id(0), 0);
    assert_eq!(shard_affinity::affinity::shard_id(16), 1);
    assert_eq!(AffinityShard::shard_id(16), 6);
}

#[test]
fn local_shard_runs_tasks() {
    let mut shard: LocalShard<10> = LocalShard::new();
    let reply = shard.run_task(ShardTask::Append(21, vec![1, 2, 3]));
    assert!(matches!(reply, ShardReply::Appended));
    let reply = shard.run_task(ShardTask::Get(21, 5));
    match reply {
        ShardReply::Fetched(Some(v)) => assert_eq!(v.len(), 5),
        _ => panic!("record should exist"),
    }
    let reply = shard.run_task(ShardTask::Get(22, 5));
    assert!(matches!(reply, ShardReply::Fetched(None)));
}

#[test]
fn local_set_worker_choice() {
    assert_eq!(shard_affinity::local_set::shard_id(0), 0);
    assert_eq!(shard_affinity::local_set::shard_id(31), 1);
    assert_eq!(LocalShard::<10>::shard_id(31), 1);
}
