use afunding::address::Address;
use afunding::amount::{parse_goal, Amount};
use afunding::campaign::{compact_slots, Campaign, RawRecord};
use afunding::store::Store;
use afunding::submit::{ConfigError, CreateRequest, LedgerConfig};
use afunding::sync::{FetchAction, FetchEvent, FetchSequence};

fn addr(first: u8) -> Address {
    let mut bytes = [0u8; 20];
    for (i, b) in bytes.iter_mut().enumerate() {
        *b = first.wrapping_add(i as u8);
    }
    Address { bytes }
}

fn hex_of(a: &Address) -> String {
    let mut s = String::from("0x");
    for b in a.bytes.iter() {
        s.push_str(&format!("{:02x}", b));
    }
    s
}

fn record(creator: Address, title: &str, desc: &str, goal: u64, raised: u64, done: bool) -> RawRecord {
    RawRecord {
        creator,
        title: title.to_string(),
        description: desc.to_string(),
        goal: Amount::from_u64(goal),
        raised: Amount::from_u64(raised),
        completed: done,
    }
}

fn campaign(id: u128, creator: &Address, title: &str, desc: &str, goal: u64, raised: u64, done: bool) -> Campaign {
    Campaign {
        id,
        creator: hex_of(creator),
        title: title.to_string(),
        description: desc.to_string(),
        goal,
        funds_raised: raised,
        completed: done,
    }
}

#[test]
fn goal_decimal_is_read() {
    assert_eq!(parse_goal("100").limbs, [100, 0, 0, 0]);
    assert_eq!(parse_goal("18446744073709551616").limbs, [0, 1, 0, 0]);
}

#[test]
fn goal_non_numeric_is_zero() {
    assert_eq!(parse_goal("abc").limbs, [0, 0, 0, 0]);
    assert_eq!(parse_goal("12a").limbs, [0, 0, 0, 0]);
    assert_eq!(parse_goal("-5").limbs, [0, 0, 0, 0]);
    assert_eq!(parse_goal("1.5").limbs, [0, 0, 0, 0]);
    assert_eq!(parse_goal("").limbs, [0, 0, 0, 0]);
}

#[test]
fn goal_at_the_ledger_bound() {
    let max = "115792089237316195423570985008687907853269984665640564039457584007913129639935";
    assert_eq!(parse_goal(max).limbs, [u64::MAX; 4]);
    let over = "115792089237316195423570985008687907853269984665640564039457584007913129639936";
    assert_eq!(parse_goal(over).limbs, [0, 0, 0, 0]);
}

#[test]
fn create_request_keeps_text_and_zeroes_bad_goal() {
    let r = CreateRequest::new("t".to_string(), "d".to_string(), "ten");
    assert_eq!(r.title, "t");
    assert_eq!(r.description, "d");
    assert_eq!(r.goal, Amount::zero());
    let r = CreateRequest::new("t".to_string(), "d".to_string(), "250");
    assert_eq!(r.goal, Amount::from_u64(250));
}

#[test]
fn low_word_truncates() {
    let a = Amount { limbs: [7, 3, 0, 0] };
    assert_eq!(a.low_u64(), 7);
}

#[test]
fn address_text_is_lowercase_hex() {
    let a = Address { bytes: [0xab, 0xcd, 0xef, 0x01, 0x23, 0x45, 0x67, 0x89, 0x0a, 0xbc, 0xde, 0xf0, 0x00, 0x11, 0x22, 0x33, 0x44, 0x55, 0x66, 0xff] };
    assert_eq!(a.to_hex(), "0xabcdef01234567890abcdef000112233445566ff");
    let back = Address::parse(&a.to_hex()).unwrap();
    assert_eq!(back, a);
}

#[test]
fn address_parse_forms() {
    let a = addr(0xa0);
    let lower = hex_of(&a);
    assert_eq!(Address::parse(&lower), Some(a));
    assert_eq!(Address::parse(&lower[2..]), Some(a));
    assert_eq!(Address::parse(&lower.to_uppercase()[2..]), Some(a));
    assert_eq!(Address::parse(&lower[..41]), None);
    assert_eq!(Address::parse(&format!("{}00", lower)), None);
    assert_eq!(Address::parse(&lower.replace('a', "g")), None);
    assert_eq!(Address::parse(""), None);
}

#[test]
fn config_checks_addresses() {
    let a = hex_of(&addr(1));
    let b = hex_of(&addr(50));
    let c = LedgerConfig::new("http://localhost:8545".to_string(), &a, &b).unwrap();
    assert_eq!(c.contract, addr(1));
    assert_eq!(c.sender, addr(50));
    assert_eq!(c.rpc_url, "http://localhost:8545");
    assert_eq!(LedgerConfig::new("u".to_string(), "0x12", &b), Err(ConfigError::InvalidContractAddress));
    assert_eq!(LedgerConfig::new("u".to_string(), &a, "nope"), Err(ConfigError::InvalidSenderAddress));
    assert_eq!(LedgerConfig::new("u".to_string(), "x", "y"), Err(ConfigError::InvalidContractAddress));
}

#[test]
fn record_decodes_to_campaign() {
    let a = addr(3);
    let mut rec = record(a, "t", "d", 5, 6, true);
    rec.goal = Amount { limbs: [9, 1, 0, 0] };
    let c = Campaign::from_record(4, rec);
    assert_eq!(c, campaign(4, &a, "t", "d", 9, 6, true));
    let c = Campaign::from_record(0, record(a, "", "", 0, 0, false));
    assert_eq!(c.title, "");
    assert_eq!(c.creator, hex_of(&a));
}

#[test]
fn compact_drops_failed_slots_in_order() {
    let slots = vec![
        Some(record(addr(1), "a", "", 1, 0, false)),
        None,
        None,
        Some(record(addr(2), "b", "", 2, 0, false)),
        Some(record(addr(3), "c", "", 3, 0, true)),
        None,
    ];
    let out = compact_slots(slots);
    assert_eq!(out.len(), 3);
    let ids: Vec<u128> = out.iter().map(|c| c.id).collect();
    assert_eq!(ids, vec![0, 3, 4]);
    assert_eq!(out[2], campaign(4, &addr(3), "c", "", 3, 0, true));
    assert!(compact_slots(vec![]).is_empty());
    assert!(compact_slots(vec![None, None]).is_empty());
}

#[test]
fn sweep_end_to_end() {
    let addr_a = addr(0x10);
    let addr_c = addr(0x30);
    let mut store = Store::new();
    let mut seq = FetchSequence::new();
    assert_eq!(seq.step(FetchEvent::CountRead(3), &mut store), FetchAction::ReadRecord(0));
    let r = seq.step(FetchEvent::RecordRead(record(addr_a, "t0", "d0", 100, 10, false)), &mut store);
    assert_eq!(r, FetchAction::ReadRecord(1));
    assert!(store.get().is_empty());
    assert_eq!(seq.step(FetchEvent::RecordFailed, &mut store), FetchAction::ReadRecord(2));
    let r = seq.step(FetchEvent::RecordRead(record(addr_c, "t2", "d2", 50, 50, true)), &mut store);
    assert_eq!(r, FetchAction::Published);
    assert_eq!(
        store.get(),
        &vec![
            campaign(0, &addr_a, "t0", "d0", 100, 10, false),
            campaign(2, &addr_c, "t2", "d2", 50, 50, true),
        ]
    );
    assert_eq!(seq.step(FetchEvent::RecordFailed, &mut store), FetchAction::Stopped);
}

#[test]
fn count_failure_leaves_store() {
    let mut store = Store::new();
    let mut seq = FetchSequence::new();
    assert_eq!(seq.step(FetchEvent::CountFailed, &mut store), FetchAction::Stopped);
    assert!(store.get().is_empty());

    let mut seq = FetchSequence::new();
    seq.step(FetchEvent::CountRead(1), &mut store);
    seq.step(FetchEvent::RecordRead(record(addr(1), "x", "y", 1, 1, false)), &mut store);
    let before = store.get().clone();
    assert_eq!(before.len(), 1);
    let mut seq = FetchSequence::new();
    assert_eq!(seq.step(FetchEvent::CountFailed, &mut store), FetchAction::Stopped);
    assert_eq!(store.get(), &before);
}

#[test]
fn zero_count_publishes_empty_list() {
    let mut store = Store::new();
    let mut seq = FetchSequence::new();
    seq.step(FetchEvent::CountRead(1), &mut store);
    seq.step(FetchEvent::RecordRead(record(addr(1), "x", "y", 1, 1, false)), &mut store);
    let mut seq = FetchSequence::new();
    assert_eq!(seq.step(FetchEvent::CountRead(0), &mut store), FetchAction::Published);
    assert!(store.get().is_empty());
}

#[test]
fn remount_replaces_snapshot() {
    let mut store = Store::new();
    let mut first = FetchSequence::new();
    first.step(FetchEvent::CountRead(2), &mut store);
    first.step(FetchEvent::RecordRead(record(addr(1), "a", "", 1, 0, false)), &mut store);
    first.step(FetchEvent::RecordRead(record(addr(2), "b", "", 2, 0, false)), &mut store);
    assert_eq!(store.get().len(), 2);
    let mut second = FetchSequence::new();
    second.step(FetchEvent::CountRead(2), &mut store);
    second.step(FetchEvent::RecordRead(record(addr(1), "a", "", 1, 0, false)), &mut store);
    assert_eq!(second.step(FetchEvent::RecordFailed, &mut store), FetchAction::Published);
    assert_eq!(store.get(), &vec![campaign(0, &addr(1), "a", "", 1, 0, false)]);
}

#[test]
fn cancelled_sweep_never_publishes() {
    let mut store = Store::new();
    let mut seq = FetchSequence::new();
    seq.step(FetchEvent::CountRead(1), &mut store);
    seq.cancel();
    let r = seq.step(FetchEvent::RecordRead(record(addr(1), "a", "", 1, 0, false)), &mut store);
    assert_eq!(r, FetchAction::Stopped);
    assert!(store.get().is_empty());
}

#[test]
fn unexpected_event_changes_nothing() {
    let mut store = Store::new();
    let mut seq = FetchSequence::new();
    assert_eq!(seq.step(FetchEvent::RecordFailed, &mut store), FetchAction::ReadCount);
    assert_eq!(seq.step(FetchEvent::CountRead(1), &mut store), FetchAction::ReadRecord(0));
    assert_eq!(seq.step(FetchEvent::CountRead(5), &mut store), FetchAction::ReadRecord(0));
}

#[test]
fn store_notifies_subscribers() {
    let mut store = Store::new();
    let a = store.subscribe().unwrap();
    let b = store.subscribe().unwrap();
    let c = store.subscribe().unwrap();
    assert_eq!((a, b, c), (0, 1, 2));
    store.unsubscribe(b);
    store.unsubscribe(9);
    let notify = store.set(vec![campaign(0, &addr(1), "a", "", 1, 0, false)]);
    assert_eq!(notify, vec![0, 2]);
    assert_eq!(store.get().len(), 1);
    assert_eq!(store.set(vec![]), vec![0, 2]);
    assert!(store.get().is_empty());
}

#[test]
fn published_sweep_leaves_subscribers() {
    let mut store = Store::new();
    let id = store.subscribe().unwrap();
    let mut seq = FetchSequence::new();
    seq.step(FetchEvent::CountRead(1), &mut store);
    let r = seq.step(FetchEvent::RecordRead(record(addr(7), "a", "b", 3, 2, false)), &mut store);
    assert_eq!(r, FetchAction::Published);
    assert_eq!(store.subscriber_ids(), &vec![id]);
    assert_eq!(store.get(), &vec![campaign(0, &addr(7), "a", "b", 3, 2, false)]);
}
