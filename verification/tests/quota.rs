use china_unicom_rs::data::{parse_infinate_flow, parse_infinate_voice, ChinaUnicomData};
use china_unicom_rs::diff::diff;
use china_unicom_rs::notify::{first_trigger, should_notify, ThresholdConfig, Trigger};
use china_unicom_rs::numfmt::{format_centi, i64_dec, parse_i64, u64_dec, u64_pad2, u64_pad4};
use china_unicom_rs::online::extract_ecs_cookies;
use china_unicom_rs::query::{get_voice_details, QuotaError, Resource, ResourceDetail};
use china_unicom_rs::timefmt::{format_datetime, format_duration, SnapshotTime};

fn time_at(unix_seconds: i64) -> SnapshotTime {
    SnapshotTime {
        unix_seconds,
        year: 2024,
        month: 5,
        day: 17,
        hour: 8,
        minute: 30,
        second: 5,
    }
}

fn snapshot() -> ChinaUnicomData {
    ChinaUnicomData {
        package_name: "套餐A".to_string(),
        time: time_at(1_700_000_000),
        sum_flow_used: 300,
        limit_flow_used: 100,
        non_limit_flow_used: 200,
        free_flow_used: 50,
        non_free_flow_used: 250,
        sum_flow: 1000,
        limit_flow: 400,
        non_limit_flow: 600,
        sum_voice_used: 30,
        limit_voice_used: 10,
        non_limit_voice_used: 20,
        sum_voice: 100,
        limit_voice: 40,
        non_limit_voice: 60,
    }
}

#[test]
fn decimal_rendering() {
    assert_eq!(u64_dec(0), "0");
    assert_eq!(u64_dec(907), "907");
    assert_eq!(i64_dec(-42), "-42");
    assert_eq!(u64_pad2(3), "03");
    assert_eq!(u64_pad4(2024), "2024");
    assert_eq!(u64_pad4(7), "0007");
}

#[test]
fn fixed_point_rendering() {
    assert_eq!(format_centi(0), "0.00");
    assert_eq!(format_centi(700), "7.00");
    assert_eq!(format_centi(1234), "12.34");
    assert_eq!(format_centi(5), "0.05");
    assert_eq!(format_centi(-50), "-0.50");
    assert_eq!(format_centi(-1234), "-12.34");
}

#[test]
fn parse_i64_accepts_plain_numbers() {
    assert_eq!(parse_i64("0"), Some(0));
    assert_eq!(parse_i64("907"), Some(907));
    assert_eq!(parse_i64("+31"), Some(31));
    assert_eq!(parse_i64("-45"), Some(-45));
    assert_eq!(parse_i64("007"), Some(7));
    assert_eq!(parse_i64("9223372036854775807"), Some(i64::MAX));
    assert_eq!(parse_i64("-9223372036854775808"), Some(i64::MIN));
}

#[test]
fn parse_i64_rejects_junk_and_overflow() {
    assert_eq!(parse_i64(""), None);
    assert_eq!(parse_i64("+"), None);
    assert_eq!(parse_i64("-"), None);
    assert_eq!(parse_i64("12a"), None);
    assert_eq!(parse_i64(" 12"), None);
    assert_eq!(parse_i64("1.5"), None);
    assert_eq!(parse_i64("9223372036854775808"), None);
    assert_eq!(parse_i64("-9223372036854775809"), None);
    assert_eq!(parse_i64("99999999999999999999999"), None);
}

#[test]
fn datetime_rendering() {
    let t = time_at(0);
    assert_eq!(format_datetime(&t), "2024-05-17 08:30:05");
}

#[test]
fn duration_rendering() {
    assert_eq!(format_duration(0), "0天00时00分");
    assert_eq!(format_duration(90060), "1天01时01分");
    assert_eq!(format_duration(5400), "0天01时30分");
    assert_eq!(format_duration(-5400), "-0天01时30分");
}

// Neither declared total is zero: no resolved output is the sentinel.
#[test]
fn resolver_no_sentinel_when_totals_positive() {
    let r = parse_infinate_flow(400, 600, 900, 900);
    for s in [&r.0, &r.1, &r.2, &r.3, &r.4, &r.5] {
        assert_ne!(s, "无限");
    }
    let v = parse_infinate_voice(40, 60, 90, 90);
    for s in [&v.0, &v.1, &v.2, &v.3, &v.4, &v.5] {
        assert_ne!(s, "无限");
    }
}

// Both families used against zero declared totals: everything is sentinel.
#[test]
fn resolver_all_sentinel_when_both_exhausted() {
    let r = parse_infinate_flow(0, 0, 50, 100);
    assert_eq!(r.0, "无限");
    assert_eq!(r.1, "无限");
    assert_eq!(r.2, "无限");
    assert_eq!(r.3, "无限");
    assert_eq!(r.4, "无限");
    assert_eq!(r.5, "无限");
}

// capped_total=10.0G, capped_used=3.0G, uncapped 0/0: real zero-based
// uncapped values, no sentinel.
#[test]
fn resolver_scenario_capped_only() {
    let (total, uncapped_total, capped_total, remaining, uncapped_remaining, capped_remaining) =
        parse_infinate_flow(1000, 0, 300, 0);
    assert_eq!(total, "10.00G");
    assert_eq!(remaining, "7.00G");
    assert_eq!(uncapped_total, "0.00G");
    assert_eq!(uncapped_remaining, "0.00G");
    assert_eq!(capped_total, "10.00G");
    assert_eq!(capped_remaining, "7.00G");
}

// capped_total=0 with 0.5G used, uncapped 5.0G total with 1.0G used:
// capped side sentinel, totals resolve to the uncapped family.
#[test]
fn resolver_scenario_uncapped_carries_totals() {
    let (total, uncapped_total, capped_total, remaining, uncapped_remaining, capped_remaining) =
        parse_infinate_flow(0, 500, 50, 100);
    assert_eq!(capped_total, "无限");
    assert_eq!(total, "5.00G");
    assert_eq!(uncapped_total, "5.00G");
    assert_eq!(remaining, "4.00G");
    assert_eq!(uncapped_remaining, "4.00G");
    assert_eq!(capped_remaining, "无限");
}

#[test]
fn resolver_voice_two_decimals() {
    let v = parse_infinate_voice(40, 60, 10, 20);
    assert_eq!(v.0, "100.00分钟");
    assert_eq!(v.1, "60.00分钟");
    assert_eq!(v.2, "40.00分钟");
    assert_eq!(v.3, "70.00分钟");
    assert_eq!(v.4, "40.00分钟");
    assert_eq!(v.5, "30.00分钟");
}

#[test]
fn diff_of_identical_snapshots_is_zero() {
    let a = snapshot();
    let b = snapshot();
    let d = diff(&a, &b);
    assert_eq!(d.sum_flow_used, 0);
    assert_eq!(d.limit_flow_used, 0);
    assert_eq!(d.non_limit_flow_used, 0);
    assert_eq!(d.free_flow_used, 0);
    assert_eq!(d.non_free_flow_used, 0);
    assert_eq!(d.sum_voice_used, 0);
    assert_eq!(d.limit_voice_used, 0);
    assert_eq!(d.non_limit_voice_used, 0);
    assert_eq!(d.elapsed_seconds, 0);
}

#[test]
fn diff_floors_backward_counters_at_zero() {
    let mut current = snapshot();
    let reference = snapshot();
    current.free_flow_used = 10;  // went backwards from 50
    current.sum_voice_used = 45;  // went forwards from 30
    current.time = time_at(1_700_005_400);
    let d = diff(&current, &reference);
    assert_eq!(d.free_flow_used, 0);
    assert_eq!(d.sum_voice_used, 15);
    assert_eq!(d.elapsed_seconds, 5400);
}

#[test]
fn diff_elapsed_may_be_negative() {
    let mut current = snapshot();
    current.time = time_at(1_699_999_000);
    let d = diff(&current, &snapshot());
    assert_eq!(d.elapsed_seconds, -1000);
}

fn config(
    timeout_seconds: Option<i64>,
    free_threshold: Option<i64>,
    non_free_threshold: Option<i64>,
) -> ThresholdConfig {
    ThresholdConfig { timeout_seconds, free_threshold, non_free_threshold }
}

// Timeout satisfied: fires via the timeout path even when the magnitude
// thresholds would also fire.
#[test]
fn notify_timeout_wins_over_magnitudes() {
    let d = diff(&snapshot(), &snapshot());
    let c = config(Some(1800), Some(0), Some(0));
    assert_eq!(first_trigger(&d, 1800, &c), Some(Trigger::Timeout));
    assert!(should_notify(&d, 1800, &c));
}

// Timeout configured but not elapsed, free threshold satisfied: the
// free-usage trigger fires.
#[test]
fn notify_free_threshold_fires_below_timeout() {
    let mut current = snapshot();
    current.free_flow_used = 60;
    let d = diff(&current, &snapshot());
    let c = config(Some(1800), Some(10), None);
    assert_eq!(first_trigger(&d, 60, &c), Some(Trigger::FreeUsage));
    assert!(should_notify(&d, 60, &c));
}

#[test]
fn notify_non_free_threshold_is_last() {
    let mut current = snapshot();
    current.non_free_flow_used = 260;
    let d = diff(&current, &snapshot());
    let c = config(Some(1800), Some(100), Some(5));
    assert_eq!(first_trigger(&d, 60, &c), Some(Trigger::NonFreeUsage));
}

#[test]
fn notify_nothing_configured_never_fires() {
    let d = diff(&snapshot(), &snapshot());
    let c = config(None, None, None);
    assert!(!should_notify(&d, i64::MAX, &c));
}

#[test]
fn notify_below_all_thresholds_is_quiet() {
    let d = diff(&snapshot(), &snapshot());
    let c = config(Some(1800), Some(10), Some(10));
    assert!(!should_notify(&d, 60, &c));
}

fn detail(limited: &str, total: &str, used: &str) -> ResourceDetail {
    ResourceDetail {
        limited: limited.to_string(),
        total: total.to_string(),
        use_field: used.to_string(),
    }
}

#[test]
fn voice_details_split_by_limited_flag() {
    let resources = vec![
        Resource { details: vec![detail("1", "999", "999")], type_field: "flow".to_string() },
        Resource {
            details: vec![
                detail("1", "40", "10"),
                detail("0", "60", "20"),
                detail("1", "30", "5"),
            ],
            type_field: "Voice".to_string(),
        },
    ];
    let (used, total, limit_used, limit_total, non_limit_used, non_limit_total) =
        get_voice_details(&resources).unwrap();
    assert_eq!(used, 35);
    assert_eq!(total, 130);
    assert_eq!(limit_used, 15);
    assert_eq!(limit_total, 70);
    assert_eq!(non_limit_used, 20);
    assert_eq!(non_limit_total, 60);
}

#[test]
fn voice_details_missing_family_fails() {
    let resources = vec![Resource {
        details: vec![detail("1", "40", "10")],
        type_field: "flow".to_string(),
    }];
    assert_eq!(get_voice_details(&resources), Err(QuotaError::MalformedQuantity));
    assert_eq!(get_voice_details(&Vec::new()), Err(QuotaError::MalformedQuantity));
}

#[test]
fn voice_details_bad_number_fails() {
    let resources = vec![Resource {
        details: vec![detail("0", "60", "twenty")],
        type_field: "Voice".to_string(),
    }];
    assert_eq!(get_voice_details(&resources), Err(QuotaError::MalformedQuantity));
}

#[test]
fn voice_details_overflowing_sum_fails() {
    let resources = vec![Resource {
        details: vec![
            detail("0", "9223372036854775807", "1"),
            detail("0", "9223372036854775807", "1"),
        ],
        type_field: "Voice".to_string(),
    }];
    assert_eq!(get_voice_details(&resources), Err(QuotaError::MalformedQuantity));
}

#[test]
fn cookies_found_across_headers() {
    let headers = vec![
        "ecs_token=abc123; Path=/; HttpOnly".to_string(),
        "other=1".to_string(),
        "ecs_acc=xyz; Path=/".to_string(),
    ];
    assert_eq!(
        extract_ecs_cookies(&headers),
        Some("ecs_token=abc123; ecs_acc=xyz".to_string())
    );
}

#[test]
fn cookies_found_in_one_header() {
    let headers = vec!["a=b; ecs_acc=A2; ecs_token=T1".to_string()];
    assert_eq!(extract_ecs_cookies(&headers), Some("ecs_token=T1; ecs_acc=A2".to_string()));
}

#[test]
fn cookies_stop_after_both_found() {
    let headers = vec![
        "ecs_token=first; ecs_acc=acc1".to_string(),
        "ecs_token=second".to_string(),
    ];
    assert_eq!(
        extract_ecs_cookies(&headers),
        Some("ecs_token=first; ecs_acc=acc1".to_string())
    );
}

#[test]
fn cookies_missing_one_gives_nothing() {
    let headers = vec!["ecs_token=onlytoken; Path=/".to_string()];
    assert_eq!(extract_ecs_cookies(&headers), None);
    assert_eq!(extract_ecs_cookies(&Vec::new()), None);
}

#[test]
fn cookies_later_value_overwrites_within_scan() {
    let headers = vec!["ecs_token=a; ecs_token=b; ecs_acc=c".to_string()];
    assert_eq!(extract_ecs_cookies(&headers), Some("ecs_token=b; ecs_acc=c".to_string()));
}
