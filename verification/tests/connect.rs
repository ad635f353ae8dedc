use hyperx_monitor::device::{find_headset, DeviceIds, PRODUCT_ID, USAGE_PAGE, VENDOR_ID};
use hyperx_monitor::reconnect::{after_attempt, count_failure, retry_delay_secs};

fn ids(vendor_id: u16, product_id: u16, usage_page: u16) -> DeviceIds {
    DeviceIds { vendor_id, product_id, usage_page }
}

#[test]
fn finds_first_matching_interface() {
    let list = vec![
        ids(VENDOR_ID, PRODUCT_ID, 0x000C),
        ids(0x046D, PRODUCT_ID, USAGE_PAGE),
        ids(VENDOR_ID, PRODUCT_ID, USAGE_PAGE),
        ids(VENDOR_ID, PRODUCT_ID, USAGE_PAGE),
    ];
    assert_eq!(find_headset(&list), Some(2));
    assert!(ids(0x03F0, 0x0D93, 0xFF90).is_headset());
}

#[test]
fn no_headset_in_list() {
    assert_eq!(find_headset(&vec![]), None);
    assert_eq!(find_headset(&vec![ids(VENDOR_ID, 0x0D94, USAGE_PAGE)]), None);
}

#[test]
fn retry_delays_grow_in_steps() {
    assert_eq!(retry_delay_secs(0), 2);
    assert_eq!(retry_delay_secs(4), 2);
    assert_eq!(retry_delay_secs(5), 5);
    assert_eq!(retry_delay_secs(9), 5);
    assert_eq!(retry_delay_secs(10), 10);
    assert_eq!(retry_delay_secs(20), 10);
    assert_eq!(retry_delay_secs(21), 60);
    assert_eq!(retry_delay_secs(255), 60);
    let mut last = 0;
    for n in 0..=255u8 {
        assert!(retry_delay_secs(n) >= last);
        last = retry_delay_secs(n);
    }
}

#[test]
fn failure_count_saturates() {
    assert_eq!(count_failure(0), 1);
    assert_eq!(count_failure(254), 255);
    assert_eq!(count_failure(255), 255);
}

#[test]
fn attempt_outcome_resets_or_counts() {
    assert_eq!(after_attempt(7, true), (0, None));
    assert_eq!(after_attempt(0, false), (1, Some(2)));
    assert_eq!(after_attempt(9, false), (10, Some(5)));
    assert_eq!(after_attempt(20, false), (21, Some(10)));
    assert_eq!(after_attempt(255, false), (255, Some(60)));
}
