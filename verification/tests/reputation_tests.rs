use hpx::reputation::{filter_step, graylist_step, GraylistParams, TrackRecord, Verdict};

const PARAMS: GraylistParams = GraylistParams {
    frequency: 1000,
    fast_packet_threshold: 3,
};

// frequency 1000 at 100000 ticks per unit
const WINDOW: u64 = 1000 * 100000;

#[test]
fn first_sight_creates_a_record() {
    let r = graylist_step(None, 0x0a000001, 5000, PARAMS, true);
    assert_eq!(
        r.record,
        TrackRecord {
            ip: 0x0a000001,
            rx_packets: 1,
            fast_packets: 0,
            last_access_ns: 5000,
        }
    );
    assert!(r.promoted.is_none());
    assert!(!r.dropped);
}

#[test]
fn three_fast_packets_promote_on_the_third() {
    let ip = 0x0a000001;
    let t0 = 1_000_000u64;
    // The source is already tracked; three packets follow inside the window.
    let seeded = TrackRecord {
        ip,
        rx_packets: 1,
        fast_packets: 0,
        last_access_ns: t0,
    };
    let first = graylist_step(Some(seeded), ip, t0 + 10, PARAMS, true);
    assert!(!first.dropped);
    assert_eq!(first.record.fast_packets, 1);
    let second = graylist_step(Some(first.record), ip, t0 + 20, PARAMS, true);
    assert!(!second.dropped);
    assert_eq!(second.record.fast_packets, 2);
    let third = graylist_step(Some(second.record), ip, t0 + 30, PARAMS, true);
    // Promotion is synchronous with the third packet.
    assert!(third.dropped);
    let promoted = third.promoted.expect("the third packet promotes");
    assert_eq!(promoted.ip, ip);
    assert_eq!(promoted.fast_packets, 3);
    assert_eq!(promoted.last_access_ns, t0 + 30);
    // The stored record's packet counter and timestamp stay untouched.
    assert_eq!(third.record.rx_packets, second.record.rx_packets);
    assert_eq!(third.record.last_access_ns, second.record.last_access_ns);
}

#[test]
fn fourth_packet_after_promotion_skips_the_graylist() {
    // Once promoted, the deny list answers before the tracking logic runs:
    // the packet is dropped and no graylist counter moves.
    let gray_rec = Some(TrackRecord {
        ip: 1,
        rx_packets: 3,
        fast_packets: 3,
        last_access_ns: 100,
    });
    let outcome = filter_step(
        false, true, // not whitelisted
        true, false, // blacklisted, deny
        true, gray_rec, 1, 200, PARAMS, true, true,
    );
    assert_eq!(outcome.verdict, Verdict::Drop);
    assert!(outcome.gray.is_none());
}

#[test]
fn no_promotion_without_a_deny_map() {
    let prev = TrackRecord {
        ip: 9,
        rx_packets: 5,
        fast_packets: 10,
        last_access_ns: 0,
    };
    let r = graylist_step(Some(prev), 9, 10, PARAMS, false);
    assert!(!r.dropped);
    assert!(r.promoted.is_none());
    assert_eq!(r.record.fast_packets, 11);
    assert_eq!(r.record.rx_packets, 6);
}

#[test]
fn slow_packets_do_not_raise_the_counter() {
    let prev = TrackRecord {
        ip: 9,
        rx_packets: 5,
        fast_packets: 2,
        last_access_ns: 0,
    };
    // Exactly at the window boundary: not "within" it.
    let r = graylist_step(Some(prev), 9, WINDOW, PARAMS, true);
    assert!(!r.dropped);
    assert_eq!(r.record.fast_packets, 2);
    assert_eq!(r.record.rx_packets, 6);
    assert_eq!(r.record.last_access_ns, WINDOW);
}

#[test]
fn long_idleness_decays_the_counter() {
    let prev = TrackRecord {
        ip: 9,
        rx_packets: 5,
        fast_packets: 2,
        last_access_ns: 0,
    };
    let r = graylist_step(Some(prev), 9, 100 * WINDOW + 1, PARAMS, true);
    assert!(!r.dropped);
    assert_eq!(r.record.fast_packets, 0);
    assert_eq!(r.record.rx_packets, 6);
}

#[test]
fn whitelist_wins_over_everything() {
    let outcome = filter_step(
        true, true, // whitelisted, allow
        true, false, // also blacklisted
        true, None, 1, 0, PARAMS, true, false,
    );
    assert_eq!(outcome.verdict, Verdict::Pass);
    assert!(outcome.gray.is_none());
}

#[test]
fn untracked_traffic_falls_through_to_the_default() {
    let dropped = filter_step(false, true, false, false, false, None, 1, 0, PARAMS, false, false);
    assert_eq!(dropped.verdict, Verdict::Drop);
    let passed = filter_step(false, true, false, false, false, None, 1, 0, PARAMS, false, true);
    assert_eq!(passed.verdict, Verdict::Pass);
}
