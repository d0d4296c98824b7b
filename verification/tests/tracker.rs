use ui::tracker::{cycle_runs, hub_channel_enabled, plan_follow, poll_interval, TrackPlan, MIN_INTERVAL_SECS, PER_FOLLOW_DELAY_MS};

#[test]
fn interval_in_seconds_with_a_fallback() {
    assert_eq!(poll_interval(0), MIN_INTERVAL_SECS);
    assert_eq!(poll_interval(0), 60);
    assert_eq!(poll_interval(1), 60);
    assert_eq!(poll_interval(15), 900);
    assert_eq!(poll_interval(u32::MAX), u32::MAX as u64 * 60);
    assert_eq!(PER_FOLLOW_DELAY_MS, 400);
}

#[test]
fn hub_channel_needs_every_condition() {
    assert!(hub_channel_enabled(true, true, false, true));
    assert!(!hub_channel_enabled(false, true, false, true));
    assert!(!hub_channel_enabled(true, false, false, true));
    assert!(!hub_channel_enabled(true, true, true, true));
    assert!(!hub_channel_enabled(true, true, false, false));
}

#[test]
fn cycle_needs_background_tracking_and_a_follow() {
    assert!(cycle_runs(true, 2));
    assert!(!cycle_runs(true, 0));
    assert!(!cycle_runs(false, 2));
}

#[test]
fn no_matches_no_work() {
    assert!(matches!(plan_follow(&vec![], None), TrackPlan::NoMatches));
    assert!(matches!(plan_follow(&vec![], Some(5)), TrackPlan::NoMatches));
}

#[test]
fn first_look_primes_without_announcing() {
    match plan_follow(&vec![30, 50, 40], None) {
        TrackPlan::Prime(newest) => assert_eq!(newest, 50),
        _ => panic!("expected the watermark to be primed"),
    }
}

#[test]
fn nothing_newer_is_up_to_date() {
    assert!(matches!(plan_follow(&vec![30, 50, 40], Some(50)), TrackPlan::UpToDate));
    assert!(matches!(plan_follow(&vec![30, 50, 40], Some(70)), TrackPlan::UpToDate));
}

#[test]
fn newer_matches_are_announced_oldest_first() {
    match plan_follow(&vec![90, 50, 70, 60, 80], Some(65)) {
        TrackPlan::Notify { fresh, newest } => {
            assert_eq!(fresh, vec![2, 4, 0]);
            assert_eq!(newest, 90);
        }
        _ => panic!("expected announcements"),
    }
}

#[test]
fn announced_watermark_settles() {
    let ids = vec![90, 50, 70];
    let newest = match plan_follow(&ids, Some(60)) {
        TrackPlan::Notify { newest, .. } => newest,
        _ => panic!("expected announcements"),
    };
    assert!(matches!(plan_follow(&ids, Some(newest)), TrackPlan::UpToDate));
}

#[test]
fn equal_ids_keep_list_order() {
    match plan_follow(&vec![7, 3, 7], Some(5)) {
        TrackPlan::Notify { fresh, newest } => {
            assert_eq!(fresh, vec![0, 2]);
            assert_eq!(newest, 7);
        }
        _ => panic!("expected announcements"),
    }
}
