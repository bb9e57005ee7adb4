//! The reputation state machine the generated filter embeds: per-source
//! tracking with a sliding window, promotion into the deny list when a
//! source exceeds the packet-rate bound within the window, and decay of
//! the rate counter after prolonged inactivity.  This module is the
//! executable reference model of those semantics; the engine emits the
//! same logic into the filter source.

use vstd::prelude::*;

verus! {

/// Number of filter-clock ticks per window unit, as the generated program
/// defines it.
pub const WINDOW_UNIT_NS: u64 = 100000;

/// Idle multiple of the window after which the rate counter decays.
pub const DECAY_MULTIPLE: u64 = 100;

/// One per-source tracking record, laid out as the filter's map stores it.
#[derive(Debug, Clone, Copy, PartialEq, Eq, Structural)]
pub struct TrackRecord {
    pub ip: u32,
    pub rx_packets: u64,
    pub fast_packets: u64,
    pub last_access_ns: u64,
}

/// Tuning of the rate-limiting machine.
#[derive(Debug, Clone, Copy, PartialEq, Eq, Structural)]
pub struct GraylistParams {
    pub frequency: u32,
    pub fast_packet_threshold: u32,
}

/// The decision the filter reaches for one packet.
#[derive(Debug, Clone, Copy, PartialEq, Eq, Structural)]
pub enum Verdict {
    Pass,
    Drop,
}

/// Outcome of one step of the rate-limiting machine: the tracking record
/// to store back, the record promoted into the deny map (if any), and
/// whether the packet is dropped on the spot.
#[derive(Debug, Clone, Copy, PartialEq, Eq, Structural)]
pub struct GraylistStep {
    pub record: TrackRecord,
    pub promoted: Option<TrackRecord>,
    pub dropped: bool,
}

/// The window length in filter-clock ticks.
pub open spec fn spec_window(frequency: u32) -> int {
    frequency * WINDOW_UNIT_NS
}

/// One step of the rate-limiting machine, as a pure function.
///
/// An unseen source starts a fresh record.  A packet inside the window
/// raises the rate counter, and — when a deny map exists and the counter
/// reaches the bound — promotes the source and drops the packet at once,
/// leaving the remaining counters untouched.  A packet after a long idle
/// spell resets the rate counter.  Every other packet just counts and
/// refreshes the timestamp.
pub open spec fn spec_graylist_step(
    rec: Option<TrackRecord>,
    src_ip: u32,
    now: u64,
    params: GraylistParams,
    blacklist_exists: bool,
) -> GraylistStep
    recommends
        rec is Some ==> rec->Some_0.last_access_ns <= now,
        rec is Some ==> rec->Some_0.rx_packets < u64::MAX,
        rec is Some ==> rec->Some_0.fast_packets < u64::MAX,
{
    match rec {
        None => GraylistStep {
            record: TrackRecord { ip: src_ip, rx_packets: 1, fast_packets: 0, last_access_ns: now },
            promoted: None,
            dropped: false,
        },
        Some(prev) => {
            let elapsed = now - prev.last_access_ns;
            if elapsed < spec_window(params.frequency) {
                let raised = (prev.fast_packets + 1) as u64;
                if blacklist_exists && raised >= params.fast_packet_threshold {
                    GraylistStep {
                        record: TrackRecord {
                            ip: prev.ip,
                            rx_packets: prev.rx_packets,
                            fast_packets: raised,
                            last_access_ns: prev.last_access_ns,
                        },
                        promoted: Some(
                            TrackRecord {
                                ip: src_ip,
                                rx_packets: prev.rx_packets,
                                fast_packets: raised,
                                last_access_ns: now,
                            },
                        ),
                        dropped: true,
                    }
                } else {
                    GraylistStep {
                        record: TrackRecord {
                            ip: prev.ip,
                            rx_packets: (prev.rx_packets + 1) as u64,
                            fast_packets: raised,
                            last_access_ns: now,
                        },
                        promoted: None,
                        dropped: false,
                    }
                }
            } else if elapsed > DECAY_MULTIPLE * spec_window(params.frequency) {
                GraylistStep {
                    record: TrackRecord {
                        ip: prev.ip,
                        rx_packets: (prev.rx_packets + 1) as u64,
                        fast_packets: 0,
                        last_access_ns: now,
                    },
                    promoted: None,
                    dropped: false,
                }
            } else {
                GraylistStep {
                    record: TrackRecord {
                        ip: prev.ip,
                        rx_packets: (prev.rx_packets + 1) as u64,
                        fast_packets: prev.fast_packets,
                        last_access_ns: now,
                    },
                    promoted: None,
                    dropped: false,
                }
            }
        },
    }
}

/// Runs one step of the rate-limiting machine.
pub fn graylist_step(
    rec: Option<TrackRecord>,
    src_ip: u32,
    now: u64,
    params: GraylistParams,
    blacklist_exists: bool,
) -> (r: GraylistStep)
    requires
        rec is Some ==> rec->Some_0.last_access_ns <= now,
        rec is Some ==> rec->Some_0.rx_packets < u64::MAX,
        rec is Some ==> rec->Some_0.fast_packets < u64::MAX,
    ensures
        r == spec_graylist_step(rec, src_ip, now, params, blacklist_exists),
{
    match rec {
        None => GraylistStep {
            record: TrackRecord { ip: src_ip, rx_packets: 1, fast_packets: 0, last_access_ns: now },
            promoted: None,
            dropped: false,
        },
        Some(prev) => {
            let elapsed = now - prev.last_access_ns;
            let window = (params.frequency as u64) * WINDOW_UNIT_NS;
            proof {
                assert(params.frequency as u64 * WINDOW_UNIT_NS == spec_window(params.frequency));
                assert(window <= 0xFFFF_FFFFu64 * 100000);
            }
            if elapsed < window {
                let raised = prev.fast_packets + 1;
                if blacklist_exists && raised >= params.fast_packet_threshold as u64 {
                    GraylistStep {
                        record: TrackRecord {
                            ip: prev.ip,
                            rx_packets: prev.rx_packets,
                            fast_packets: raised,
                            last_access_ns: prev.last_access_ns,
                        },
                        promoted: Some(
                            TrackRecord {
                                ip: src_ip,
                                rx_packets: prev.rx_packets,
                                fast_packets: raised,
                                last_access_ns: now,
                            },
                        ),
                        dropped: true,
                    }
                } else {
                    GraylistStep {
                        record: TrackRecord {
                            ip: prev.ip,
                            rx_packets: prev.rx_packets + 1,
                            fast_packets: raised,
                            last_access_ns: now,
                        },
                        promoted: None,
                        dropped: false,
                    }
                }
            } else if elapsed > DECAY_MULTIPLE * window {
                GraylistStep {
                    record: TrackRecord {
                        ip: prev.ip,
                        rx_packets: prev.rx_packets + 1,
                        fast_packets: 0,
                        last_access_ns: now,
                    },
                    promoted: None,
                    dropped: false,
                }
            } else {
                GraylistStep {
                    record: TrackRecord {
                        ip: prev.ip,
                        rx_packets: prev.rx_packets + 1,
                        fast_packets: prev.fast_packets,
                        last_access_ns: now,
                    },
                    promoted: None,
                    dropped: false,
                }
            }
        },
    }
}

/// The whole per-packet decision of the generated filter, in the order the
/// emitted source checks: the pass list first, then the deny list, then
/// the rate-limiting machine, then the default action.
#[derive(Debug, Clone, Copy, PartialEq, Eq, Structural)]
pub struct FilterOutcome {
    pub verdict: Verdict,
    pub gray: Option<GraylistStep>,
}

/// The per-packet decision as a pure function.
pub open spec fn spec_filter_step(
    in_whitelist: bool,
    whitelist_allows: bool,
    in_blacklist: bool,
    blacklist_allows: bool,
    gray_enabled: bool,
    gray_rec: Option<TrackRecord>,
    src_ip: u32,
    now: u64,
    params: GraylistParams,
    blacklist_exists: bool,
    default_pass: bool,
) -> FilterOutcome {
    if in_whitelist {
        FilterOutcome {
            verdict: if whitelist_allows {
                Verdict::Pass
            } else {
                Verdict::Drop
            },
            gray: None,
        }
    } else if in_blacklist {
        FilterOutcome {
            verdict: if blacklist_allows {
                Verdict::Pass
            } else {
                Verdict::Drop
            },
            gray: None,
        }
    } else if gray_enabled {
        let step = spec_graylist_step(gray_rec, src_ip, now, params, blacklist_exists);
        FilterOutcome {
            verdict: if step.dropped {
                Verdict::Drop
            } else if default_pass {
                Verdict::Pass
            } else {
                Verdict::Drop
            },
            gray: Some(step),
        }
    } else {
        FilterOutcome {
            verdict: if default_pass {
                Verdict::Pass
            } else {
                Verdict::Drop
            },
            gray: None,
        }
    }
}

/// Decides one packet exactly as the generated filter would.
pub fn filter_step(
    in_whitelist: bool,
    whitelist_allows: bool,
    in_blacklist: bool,
    blacklist_allows: bool,
    gray_enabled: bool,
    gray_rec: Option<TrackRecord>,
    src_ip: u32,
    now: u64,
    params: GraylistParams,
    blacklist_exists: bool,
    default_pass: bool,
) -> (r: FilterOutcome)
    requires
        gray_rec is Some ==> gray_rec->Some_0.last_access_ns <= now,
        gray_rec is Some ==> gray_rec->Some_0.rx_packets < u64::MAX,
        gray_rec is Some ==> gray_rec->Some_0.fast_packets < u64::MAX,
    ensures
        r == spec_filter_step(
            in_whitelist,
            whitelist_allows,
            in_blacklist,
            blacklist_allows,
            gray_enabled,
            gray_rec,
            src_ip,
            now,
            params,
            blacklist_exists,
            default_pass,
        ),
{
    if in_whitelist {
        FilterOutcome {
            verdict: if whitelist_allows {
                Verdict::Pass
            } else {
                Verdict::Drop
            },
            gray: None,
        }
    } else if in_blacklist {
        FilterOutcome {
            verdict: if blacklist_allows {
                Verdict::Pass
            } else {
                Verdict::Drop
            },
            gray: None,
        }
    } else if gray_enabled {
        let step = graylist_step(gray_rec, src_ip, now, params, blacklist_exists);
        FilterOutcome {
            verdict: if step.dropped {
                Verdict::Drop
            } else if default_pass {
                Verdict::Pass
            } else {
                Verdict::Drop
            },
            gray: Some(step),
        }
    } else {
        FilterOutcome {
            verdict: if default_pass {
                Verdict::Pass
            } else {
                Verdict::Drop
            },
            gray: None,
        }
    }
}

/// Promotion law: a packet inside the window that lifts the rate counter
/// to the bound, while a deny map exists, copies the record into the deny
/// map and drops the packet at once, leaving the stored packet counter and
/// timestamp untouched.
pub proof fn lemma_promotion_on_threshold(
    prev: TrackRecord,
    src_ip: u32,
    now: u64,
    params: GraylistParams,
)
    requires
        prev.last_access_ns <= now,
        prev.rx_packets < u64::MAX,
        prev.fast_packets < u64::MAX,
        now - prev.last_access_ns < spec_window(params.frequency),
        prev.fast_packets + 1 >= params.fast_packet_threshold,
    ensures
        ({
            let r = spec_graylist_step(Some(prev), src_ip, now, params, true);
            r.dropped && r.promoted == Some(
                TrackRecord {
                    ip: src_ip,
                    rx_packets: prev.rx_packets,
                    fast_packets: (prev.fast_packets + 1) as u64,
                    last_access_ns: now,
                },
            ) && r.record.rx_packets == prev.rx_packets && r.record.last_access_ns
                == prev.last_access_ns
        }),
{
}

/// After promotion the source sits in the deny map, so the next packet is
/// dropped by the deny rule before the rate-limiting machine runs: no
/// tracking counter moves again.
pub proof fn lemma_blacklisted_packet_skips_tracking(
    gray_rec: Option<TrackRecord>,
    src_ip: u32,
    now: u64,
    params: GraylistParams,
    default_pass: bool,
)
    ensures
        ({
            let r = spec_filter_step(
                false,
                true,
                true,
                false,
                true,
                gray_rec,
                src_ip,
                now,
                params,
                true,
                default_pass,
            );
            r.verdict == Verdict::Drop && r.gray is None
        }),
{
}

} // verus!
