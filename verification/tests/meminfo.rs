use oom_guard::monitor::{MemInfo, SamplerError};
use oom_guard::percent::Percent;

fn pct(value: f64) -> Percent {
    Percent::from_millis((value * 1000.0).round() as i128)
}

fn as_f64(p: Percent) -> f64 {
    p.millis() as f64 / 1000.0
}

#[test]
fn test_mem_percentages() {
    let info = MemInfo {
        mem_total: 16_000_000,
        mem_available: 8_000_000,
        swap_total: 8_000_000,
        swap_free: 4_000_000,
    };

    assert_eq!(as_f64(info.mem_available_percent()), 50.0);
    assert_eq!(as_f64(info.mem_used_percent()), 50.0);
    assert_eq!(as_f64(info.swap_free_percent()), 50.0);
    assert_eq!(as_f64(info.swap_used_percent()), 50.0);
}

#[test]
fn test_thresholds() {
    let info = MemInfo {
        mem_total: 16_000_000,
        mem_available: 1_600_000,
        swap_total: 8_000_000,
        swap_free: 800_000,
    };

    assert!(info.is_mem_below_threshold(pct(15.0)));
    assert!(!info.is_mem_below_threshold(pct(5.0)));
    assert!(info.is_mem_below_threshold_kb(2_000_000));
    assert!(!info.is_mem_below_threshold_kb(1_000_000));

    assert!(info.is_swap_below_threshold(pct(15.0)));
    assert!(!info.is_swap_below_threshold(pct(5.0)));
    assert!(info.is_swap_below_threshold_kb(1_000_000));
    assert!(!info.is_swap_below_threshold_kb(500_000));
}

#[test]
fn test_format_size() {
    assert_eq!(MemInfo::format_size(512), "512 KiB");
    assert_eq!(MemInfo::format_size(1024), "1.00 KiB");
    assert_eq!(MemInfo::format_size(1536), "1.50 KiB");
    assert_eq!(MemInfo::format_size(1024 * 1024), "1.00 MiB");
    assert_eq!(MemInfo::format_size(1024 * 1024 * 1024), "1.00 GiB");
}

#[test]
fn format_size_rounds_to_nearest_with_ties_to_even() {
    assert_eq!(MemInfo::format_size(0), "0 KiB");
    assert_eq!(MemInfo::format_size(1023), "1023 KiB");
    // 1152 / 1024 = 1.125, a tie: the even hundredth is kept
    assert_eq!(MemInfo::format_size(1152), "1.12 KiB");
    // 1408 / 1024 = 1.375, a tie: the even hundredth is the upper one
    assert_eq!(MemInfo::format_size(1408), "1.38 KiB");
    assert_eq!(MemInfo::format_size(1030), "1.01 KiB");
    assert_eq!(MemInfo::format_size(16_000_000), "15.26 MiB");
    assert_eq!(MemInfo::format_size(u64::MAX), "17179869184.00 GiB");
}

#[test]
fn threshold_comparison_is_strict() {
    let info = MemInfo {
        mem_total: 1000,
        mem_available: 100,
        swap_total: 1000,
        swap_free: 100,
    };
    assert!(!info.is_mem_below_threshold(pct(10.0)));
    assert!(info.is_mem_below_threshold(pct(10.001)));
    assert!(!info.is_swap_below_threshold(pct(10.0)));
    assert!(info.is_swap_below_threshold(pct(10.001)));
    assert!(!info.is_mem_below_threshold_kb(100));
    assert!(info.is_mem_below_threshold_kb(101));
    assert!(!info.is_swap_below_threshold_kb(100));
    assert!(info.is_swap_below_threshold_kb(101));
}

#[test]
fn percentages_are_rounded_down_to_a_thousandth() {
    let info = MemInfo {
        mem_total: 3,
        mem_available: 1,
        swap_total: 3,
        swap_free: 2,
    };
    assert_eq!(info.mem_available_percent().millis(), 33_333);
    assert_eq!(info.swap_free_percent().millis(), 66_666);
    assert_eq!(info.mem_used_percent().millis(), 66_667);
}

#[test]
fn swapless_snapshot_counts_as_all_swap_free() {
    let info = MemInfo {
        mem_total: 16_000_000,
        mem_available: 100,
        swap_total: 0,
        swap_free: 0,
    };
    assert_eq!(info.swap_free_percent().millis(), 100_000);
    assert_eq!(info.swap_used_percent().millis(), 0);
    assert!(!info.is_swap_below_threshold(pct(100.0)));
    assert!(!info.is_swap_below_threshold(pct(10.0)));
    assert!(!info.is_swap_below_threshold(pct(0.0)));
}

#[test]
fn snapshot_without_total_has_no_available_percentage() {
    let info = MemInfo::default();
    assert_eq!(info.mem_total, 0);
    assert_eq!(info.mem_available_percent().millis(), 0);
    assert_eq!(info.swap_free_percent().millis(), 100_000);
}

#[test]
fn parse_reads_the_four_fields() {
    let text = "MemTotal:       16000000 kB\nMemFree:         1000000 kB\nMemAvailable:    8000000 kB\nBuffers:          100000 kB\nSwapTotal:       8000000 kB\nSwapFree:        4000000 kB\n";
    let info = MemInfo::parse(text).unwrap();
    assert_eq!(
        info,
        MemInfo {
            mem_total: 16_000_000,
            mem_available: 8_000_000,
            swap_total: 8_000_000,
            swap_free: 4_000_000,
        }
    );
}

#[test]
fn parse_defaults_missing_fields_to_zero() {
    let info = MemInfo::parse("MemTotal: 2048 kB\n").unwrap();
    assert_eq!(
        info,
        MemInfo { mem_total: 2048, mem_available: 0, swap_total: 0, swap_free: 0 }
    );
}

#[test]
fn parse_fails_without_a_positive_total() {
    assert_eq!(MemInfo::parse(""), Err(SamplerError::Unreadable));
    assert_eq!(MemInfo::parse("MemAvailable: 5 kB\n"), Err(SamplerError::Unreadable));
    assert_eq!(MemInfo::parse("MemTotal: 0 kB\n"), Err(SamplerError::Unreadable));
}

#[test]
fn parse_fails_on_a_field_that_is_no_number() {
    assert_eq!(MemInfo::parse("MemTotal: lots kB\n"), Err(SamplerError::Unreadable));
    assert_eq!(
        MemInfo::parse("MemTotal: 5 kB\nSwapFree: -1 kB\n"),
        Err(SamplerError::Unreadable)
    );
    assert_eq!(
        MemInfo::parse("MemTotal: 99999999999999999999999 kB\n"),
        Err(SamplerError::Unreadable)
    );
}

#[test]
fn parse_skips_lines_it_does_not_know() {
    let info = MemInfo::parse("Garbage here\nNoValue\n\nMemTotal: 7 kB\nHugePages_Total: x\n")
        .unwrap();
    assert_eq!(info.mem_total, 7);
}

#[test]
fn parse_takes_the_last_of_repeated_lines_and_any_blanks() {
    let info = MemInfo::parse("  MemTotal:\t5\r\nMemTotal 9\nMemAvailable:: +3").unwrap();
    assert_eq!(info.mem_total, 9);
    assert_eq!(info.mem_available, 3);
}

#[test]
fn describe_gives_amounts_and_percentages() {
    let info = MemInfo {
        mem_total: 16_000_000,
        mem_available: 8_000_000,
        swap_total: 0,
        swap_free: 0,
    };
    assert_eq!(
        info.describe(),
        "Memory: 7.63 MiB/15.26 MiB (50.0% available), Swap: 0 KiB/0 KiB (100.0% free)"
    );
}
