use cdk_pipeline::text::{concat3, concat4, with_number};
use cdk_pipeline::time::{unix_now, whole_seconds};
use cdk_pipeline::util::count::{add_capped, bump};
use cdk_pipeline::util::{keys_of, remove_keys_above, scan_range};
use std::collections::HashMap;
use std::time::Duration;

fn map_of(keys: &[u64]) -> HashMap<u64, &'static str> {
    keys.iter().map(|k| (*k, "v")).collect()
}

#[test]
fn keys_come_each_once() {
    let m = map_of(&[5, 1, 9, u64::MAX, 0]);
    let mut keys = keys_of(&m);
    keys.sort();
    assert_eq!(keys, vec![0, 1, 5, 9, u64::MAX]);
    assert_eq!(keys_of(&map_of(&[])), Vec::<u64>::new());
}

#[test]
fn range_scans_are_in_rising_order() {
    let m = map_of(&[5, 1, 9, u64::MAX, 0, 7, 3]);
    assert_eq!(scan_range(&m, 1, 7), vec![1, 3, 5, 7]);
    assert_eq!(scan_range(&m, 0, u64::MAX), vec![0, 1, 3, 5, 7, 9, u64::MAX]);
    assert_eq!(scan_range(&m, 6, 6), Vec::<u64>::new());
    assert_eq!(scan_range(&m, 7, 1), Vec::<u64>::new());
    assert_eq!(scan_range(&m, u64::MAX, u64::MAX), vec![u64::MAX]);
}

#[test]
fn keys_above_a_bound_are_removed() {
    let mut m = map_of(&[5, 1, 9, u64::MAX, 0]);
    assert_eq!(remove_keys_above(&mut m, u64::MAX), 0);
    assert_eq!(m.len(), 5);
    assert_eq!(remove_keys_above(&mut m, 5), 2);
    let mut left: Vec<u64> = m.keys().copied().collect();
    left.sort();
    assert_eq!(left, vec![0, 1, 5]);
    assert_eq!(remove_keys_above(&mut m, 5), 0);
    assert_eq!(remove_keys_above(&mut m, 0), 2);
    assert_eq!(m.len(), 1);
}

#[test]
fn counters_stop_at_the_top() {
    assert_eq!(bump(0), 1);
    assert_eq!(bump(u64::MAX - 1), u64::MAX);
    assert_eq!(bump(u64::MAX), u64::MAX);
    assert_eq!(add_capped(5, 7), 12);
    assert_eq!(add_capped(u64::MAX - 7, 7), u64::MAX);
    assert_eq!(add_capped(u64::MAX - 6, 7), u64::MAX);
    assert_eq!(add_capped(u64::MAX, 0), u64::MAX);
}

#[test]
fn texts_are_joined_in_order() {
    assert_eq!(concat3("a", "", "c"), "ac");
    assert_eq!(concat4("a", "b", "c", "d"), "abcd");
    assert_eq!(with_number("n = ", 0), "n = 0");
    assert_eq!(with_number("", u64::MAX), "18446744073709551615");
}

#[test]
fn the_wall_clock_is_past_2020() {
    let now = unix_now();
    assert!(now > 1_577_836_800);
    assert!(unix_now() >= now);
}

#[test]
fn whole_seconds_drop_the_fraction() {
    assert_eq!(whole_seconds(Some(Duration::new(1_700_000_000, 999_999_999))), 1_700_000_000);
    assert_eq!(whole_seconds(Some(Duration::from_millis(999))), 0);
    assert_eq!(whole_seconds(Some(Duration::from_secs(u64::MAX))), u64::MAX);
    // a clock that stands before the epoch reads as zero
    assert_eq!(whole_seconds(None), 0);
}
