use oom_guard::config::{
    apply_env_overrides, compile_patterns, compile_safe_regex, format_size_pair,
    format_threshold_pair, parse_bool, parse_size_pair, parse_threshold_pair, Args, Config,
    ConfigError, ConfigWarning, EnvOverrides, EnvVar, ThresholdField,
};
use oom_guard::percent::Percent;

const MAX_REGEX_PATTERN_LENGTH: usize = 256;

fn as_f64(p: Percent) -> f64 {
    p.millis() as f64 / 1000.0
}

fn no_args() -> Args {
    Args {
        mem_threshold: None,
        swap_threshold: None,
        mem_size_kb: None,
        swap_size_kb: None,
        interval: None,
        report: None,
        notify: false,
        post_kill_script: None,
        pre_kill_script: None,
        kill_group: false,
        priority: None,
        debug: false,
        sort_by_rss: false,
        prefer: Vec::new(),
        avoid: Vec::new(),
        ignore: Vec::new(),
        dry_run: false,
        ignore_root_user: false,
        syslog: false,
    }
}

#[test]
fn test_parse_bool() {
    assert_eq!(parse_bool("true").unwrap(), true);
    assert_eq!(parse_bool("TRUE").unwrap(), true);
    assert_eq!(parse_bool("1").unwrap(), true);
    assert_eq!(parse_bool("yes").unwrap(), true);
    assert_eq!(parse_bool("on").unwrap(), true);

    assert_eq!(parse_bool("false").unwrap(), false);
    assert_eq!(parse_bool("FALSE").unwrap(), false);
    assert_eq!(parse_bool("0").unwrap(), false);
    assert_eq!(parse_bool("no").unwrap(), false);
    assert_eq!(parse_bool("off").unwrap(), false);

    assert!(parse_bool("invalid").is_err());
}

#[test]
fn parse_bool_takes_any_mix_of_case_and_nothing_else() {
    assert_eq!(parse_bool("YeS"), Ok(true));
    assert_eq!(parse_bool("oN"), Ok(true));
    assert_eq!(parse_bool("No"), Ok(false));
    assert_eq!(parse_bool("OFF"), Ok(false));
    assert_eq!(parse_bool(""), Err(ConfigError::InvalidBoolean));
    assert_eq!(parse_bool(" true"), Err(ConfigError::InvalidBoolean));
    assert_eq!(parse_bool("truee"), Err(ConfigError::InvalidBoolean));
    assert_eq!(parse_bool("2"), Err(ConfigError::InvalidBoolean));
    assert_eq!(parse_bool("t"), Err(ConfigError::InvalidBoolean));
}

#[test]
fn test_compile_safe_regex_valid_pattern() {
    let regex = compile_safe_regex("^firefox$").unwrap();
    assert!(regex.is_match("firefox"));
    assert!(!regex.is_match("firefox-esr"));
}

#[test]
fn test_compile_safe_regex_complex_but_safe_pattern() {
    let regex = compile_safe_regex(r"chrome|chromium|google-chrome").unwrap();
    assert!(regex.is_match("chrome"));
    assert!(regex.is_match("chromium"));
    assert!(regex.is_match("google-chrome"));
}

#[test]
fn test_compile_safe_regex_pattern_too_long() {
    let long_pattern = "a".repeat(MAX_REGEX_PATTERN_LENGTH + 1);
    let result = compile_safe_regex(&long_pattern);
    assert!(result.is_err());
    let err_msg = result.unwrap_err().message();
    assert!(err_msg.contains("too long"));
}

#[test]
fn test_compile_safe_regex_invalid_pattern() {
    let result = compile_safe_regex("[invalid");
    assert!(result.is_err());
    let err_msg = result.unwrap_err().message();
    assert!(err_msg.contains("Invalid regex pattern"));
}

#[test]
fn test_compile_safe_regex_max_length_boundary() {
    let pattern = "a".repeat(MAX_REGEX_PATTERN_LENGTH);
    let result = compile_safe_regex(&pattern);
    assert!(result.is_ok());
}

#[test]
fn pattern_length_is_counted_in_characters() {
    let pattern = "é".repeat(256);
    assert!(compile_safe_regex(&pattern).is_ok());
    let pattern = "é".repeat(257);
    assert_eq!(compile_safe_regex(&pattern).unwrap_err(), ConfigError::PatternTooLong);
}

#[test]
fn pattern_over_the_size_ceiling_is_invalid() {
    let result = compile_safe_regex(r"((\pL{100}){100}){100}");
    assert_eq!(result.unwrap_err(), ConfigError::InvalidPattern);
}

#[test]
fn compiled_pattern_keeps_its_text() {
    assert_eq!(compile_safe_regex("^fire.*x$").unwrap().as_str(), "^fire.*x$");
    assert_eq!(compile_safe_regex("").unwrap().as_str(), "");
    let copy = compile_safe_regex("a|b").unwrap().clone();
    assert_eq!(copy.as_str(), "a|b");
}

#[test]
fn compiled_pattern_matches_as_the_expression_says() {
    let regex = compile_safe_regex(r"^\[k.*\]$").unwrap();
    assert!(regex.is_match("[kthreadd]"));
    assert!(!regex.is_match("kthreadd"));
    let copy = regex.clone();
    assert!(copy.is_match("[kworker/0:1]"));
}

#[test]
fn test_parse_threshold_pair_single_value() {
    let (warn, kill) = parse_threshold_pair("10").unwrap();
    assert_eq!(as_f64(warn), 10.0);
    assert_eq!(as_f64(kill), 5.0);
}

#[test]
fn test_parse_threshold_pair_both_values() {
    let (warn, kill) = parse_threshold_pair("10,5").unwrap();
    assert_eq!(as_f64(warn), 10.0);
    assert_eq!(as_f64(kill), 5.0);
}

#[test]
fn test_parse_threshold_pair_custom_ratio() {
    let (warn, kill) = parse_threshold_pair("20").unwrap();
    assert_eq!(as_f64(warn), 20.0);
    assert_eq!(as_f64(kill), 10.0);
}

#[test]
fn test_parse_size_pair_single_value() {
    let (warn, kill) = parse_size_pair("1048576").unwrap();
    assert_eq!(warn, 1048576);
    assert_eq!(kill, 524288);
}

#[test]
fn test_parse_size_pair_both_values() {
    let (warn, kill) = parse_size_pair("1048576,262144").unwrap();
    assert_eq!(warn, 1048576);
    assert_eq!(kill, 262144);
}

#[test]
fn test_config_default_thresholds() {
    let config = Config::default();
    assert_eq!(as_f64(config.mem_threshold_warn), 10.0);
    assert_eq!(as_f64(config.mem_threshold_kill), 5.0);
    assert_eq!(as_f64(config.swap_threshold_warn), 10.0);
    assert_eq!(as_f64(config.swap_threshold_kill), 5.0);
}

#[test]
fn config_defaults_are_complete() {
    let config = Config::default();
    assert_eq!(config.mem_size_warn, None);
    assert_eq!(config.swap_size_kill, None);
    assert_eq!(config.check_interval, 1);
    assert_eq!(config.report_interval, 60);
    assert!(config.adaptive_sleep);
    assert!(!config.sort_by_rss);
    assert!(config.prefer.is_empty() && config.avoid.is_empty() && config.ignore.is_empty());
    assert!(!config.dry_run && !config.kill_group && !config.notify);
    assert_eq!(config.priority, None);
    assert_eq!(config.validate(), Ok(()));
    assert!(config.warnings().is_empty());
}

#[test]
fn threshold_pair_takes_fractions_blanks_and_signs() {
    let (warn, kill) = parse_threshold_pair(" 7.5 , 2.25 ").unwrap();
    assert_eq!(warn.millis(), 7500);
    assert_eq!(kill.millis(), 2250);
    let (warn, kill) = parse_threshold_pair("7.5").unwrap();
    assert_eq!(warn.millis(), 7500);
    assert_eq!(kill.millis(), 3750);
    let (warn, kill) = parse_threshold_pair("0.001").unwrap();
    assert_eq!(warn.millis(), 1);
    assert_eq!(kill.millis(), 0);
    let (warn, kill) = parse_threshold_pair("-3,+4.125").unwrap();
    assert_eq!(warn.millis(), -3000);
    assert_eq!(kill.millis(), 4125);
    let (warn, kill) = parse_threshold_pair("10,5,99").unwrap();
    assert_eq!((warn.millis(), kill.millis()), (10_000, 5_000));
    let (warn, kill) = parse_threshold_pair("12.34567, .5").unwrap();
    assert_eq!((warn.millis(), kill.millis()), (12_345, 500));
    let (warn, kill) = parse_threshold_pair("5.").unwrap();
    assert_eq!((warn.millis(), kill.millis()), (5_000, 2_500));
}

#[test]
fn threshold_pair_errors_name_the_part() {
    assert_eq!(parse_threshold_pair(""), Err(ConfigError::InvalidThreshold));
    assert_eq!(parse_threshold_pair("abc"), Err(ConfigError::InvalidThreshold));
    assert_eq!(parse_threshold_pair("1e1"), Err(ConfigError::InvalidThreshold));
    assert_eq!(parse_threshold_pair("."), Err(ConfigError::InvalidThreshold));
    assert_eq!(parse_threshold_pair("10,1e0"), Err(ConfigError::InvalidKillThreshold));
    assert_eq!(parse_threshold_pair("1 0"), Err(ConfigError::InvalidThreshold));
    assert_eq!(parse_threshold_pair(",5"), Err(ConfigError::InvalidThreshold));
    assert_eq!(parse_threshold_pair("10,"), Err(ConfigError::InvalidKillThreshold));
    assert_eq!(parse_threshold_pair("10,x"), Err(ConfigError::InvalidKillThreshold));
}

#[test]
fn size_pair_errors_name_the_part() {
    assert_eq!(parse_size_pair("x"), Err(ConfigError::InvalidSize));
    assert_eq!(parse_size_pair("-1"), Err(ConfigError::InvalidSize));
    assert_eq!(parse_size_pair("1.5"), Err(ConfigError::InvalidSize));
    assert_eq!(parse_size_pair("18446744073709551616"), Err(ConfigError::InvalidSize));
    assert_eq!(parse_size_pair("10,"), Err(ConfigError::InvalidKillSize));
    assert_eq!(parse_size_pair("10,-1"), Err(ConfigError::InvalidKillSize));
    assert_eq!(parse_size_pair(" 7 , 3 "), Ok((7, 3)));
    assert_eq!(parse_size_pair("7"), Ok((7, 3)));
    assert_eq!(parse_size_pair("18446744073709551615"), Ok((u64::MAX, u64::MAX / 2)));
}

#[test]
fn threshold_pair_survives_writing_and_reading() {
    for (w, k) in [
        (10_000i128, 5_000i128),
        (7_500, 2_250),
        (0, 0),
        (100_000, 1),
        (-1, -999_999),
        (i128::MIN, i128::MAX),
        (10_000, i128::MIN),
    ] {
        let warn = Percent::from_millis(w);
        let kill = Percent::from_millis(k);
        let text = format_threshold_pair(warn, kill);
        assert_eq!(parse_threshold_pair(&text), Ok((warn, kill)));
    }
    assert_eq!(
        format_threshold_pair(Percent::from_millis(7_500), Percent::from_millis(-25)),
        "7.500,-0.025"
    );
}

#[test]
fn size_pair_survives_writing_and_reading() {
    for (w, k) in [(0u64, 0u64), (1_048_576, 262_144), (u64::MAX, 1)] {
        let text = format_size_pair(w, k);
        assert_eq!(parse_size_pair(&text), Ok((w, k)));
    }
    assert_eq!(format_size_pair(1_048_576, 262_144), "1048576,262144");
}

#[test]
fn validate_reports_the_first_rule_broken() {
    let mut config = Config::default();
    config.mem_threshold_warn = Percent::from_millis(100_001);
    config.swap_threshold_kill = Percent::from_millis(-1);
    assert_eq!(
        config.validate(),
        Err(ConfigError::ThresholdOutOfRange(ThresholdField::MemWarn))
    );
    config.mem_threshold_warn = Percent::from_millis(100_000);
    assert_eq!(
        config.validate(),
        Err(ConfigError::ThresholdOutOfRange(ThresholdField::SwapKill))
    );
    config.swap_threshold_kill = Percent::from_millis(0);
    assert_eq!(config.validate(), Ok(()));
    config.mem_threshold_kill = Percent::from_millis(-1);
    assert_eq!(
        config.validate(),
        Err(ConfigError::ThresholdOutOfRange(ThresholdField::MemKill))
    );
    config.mem_threshold_kill = Percent::from_whole(5);
    config.swap_threshold_warn = Percent::from_whole(101);
    assert_eq!(
        config.validate(),
        Err(ConfigError::ThresholdOutOfRange(ThresholdField::SwapWarn))
    );
}

#[test]
fn validate_checks_the_priority_range() {
    let mut config = Config::default();
    for p in [-20, 0, 19] {
        config.priority = Some(p);
        assert_eq!(config.validate(), Ok(()));
    }
    for p in [-21, 20, i32::MIN, i32::MAX] {
        config.priority = Some(p);
        assert_eq!(config.validate(), Err(ConfigError::PriorityOutOfRange));
    }
}

#[test]
fn kill_above_warn_is_a_warning_not_an_error() {
    let mut config = Config::default();
    config.mem_threshold_kill = Percent::from_whole(20);
    config.swap_threshold_kill = Percent::from_whole(30);
    assert_eq!(config.validate(), Ok(()));
    assert_eq!(
        config.warnings(),
        vec![ConfigWarning::MemKillAboveWarn, ConfigWarning::SwapKillAboveWarn]
    );
}

#[test]
fn size_beside_a_changed_percentage_is_warned_about() {
    let mut config = Config::default();
    config.mem_size_warn = Some(1000);
    config.swap_size_warn = Some(1000);
    assert!(config.warnings().is_empty());
    config.mem_threshold_warn = Percent::from_whole(12);
    config.swap_threshold_warn = Percent::from_whole(13);
    assert_eq!(
        config.warnings(),
        vec![
            ConfigWarning::MemSizeOverridesPercent,
            ConfigWarning::SwapSizeOverridesPercent
        ]
    );
}

#[test]
fn error_messages_say_what_is_wrong() {
    assert_eq!(
        ConfigError::ThresholdOutOfRange(ThresholdField::MemWarn).message(),
        "mem_threshold_warn must be between 0 and 100"
    );
    assert_eq!(
        ConfigError::ThresholdOutOfRange(ThresholdField::SwapKill).message(),
        "swap_threshold_kill must be between 0 and 100"
    );
    assert_eq!(
        ConfigError::PriorityOutOfRange.message(),
        "priority must be between -20 and 19"
    );
    assert_eq!(
        ConfigError::InvalidThreshold.message(),
        "Invalid threshold value: expected a decimal number such as 10 or 7.5, without an exponent"
    );
    assert_eq!(
        ConfigError::InvalidKillThreshold.message(),
        "Invalid kill threshold: expected a decimal number such as 5 or 2.5, without an exponent"
    );
    assert_eq!(ConfigError::InvalidSize.message(), "Invalid size value");
    assert_eq!(ConfigError::InvalidKillSize.message(), "Invalid kill size");
    assert_eq!(ConfigError::InvalidBoolean.message(), "Invalid boolean value");
    assert_eq!(
        ConfigError::InvalidEnvValue(EnvVar::Debug).message(),
        "Invalid value in environment variable"
    );
}

#[test]
fn from_args_without_anything_gives_the_defaults() {
    let config = Config::from_args(no_args(), &EnvOverrides::none()).unwrap();
    assert_eq!(config.mem_threshold_warn.millis(), 10_000);
    assert_eq!(config.mem_threshold_kill.millis(), 5_000);
    assert_eq!(config.check_interval, 1);
    assert_eq!(config.report_interval, 60);
    assert!(config.adaptive_sleep);
    assert!(config.prefer.is_empty());
}

#[test]
fn from_args_takes_every_setting() {
    let mut args = no_args();
    args.mem_threshold = Some("20,8".to_string());
    args.swap_threshold = Some("30".to_string());
    args.mem_size_kb = Some("4096".to_string());
    args.swap_size_kb = Some("2048,512".to_string());
    args.interval = Some(3);
    args.report = Some(120);
    args.notify = true;
    args.pre_kill_script = Some("/etc/pre.sh".to_string());
    args.post_kill_script = Some("/etc/post.sh".to_string());
    args.kill_group = true;
    args.priority = Some(-5);
    args.debug = true;
    args.sort_by_rss = true;
    args.prefer = vec!["chrome".to_string(), "firefox".to_string()];
    args.avoid = vec!["sshd".to_string()];
    args.ignore = vec!["^systemd".to_string()];
    args.dry_run = true;
    args.ignore_root_user = true;
    let config = Config::from_args(args, &EnvOverrides::none()).unwrap();
    assert_eq!(config.mem_threshold_warn.millis(), 20_000);
    assert_eq!(config.mem_threshold_kill.millis(), 8_000);
    assert_eq!(config.swap_threshold_warn.millis(), 30_000);
    assert_eq!(config.swap_threshold_kill.millis(), 15_000);
    assert_eq!(config.mem_size_warn, Some(4096));
    assert_eq!(config.mem_size_kill, Some(2048));
    assert_eq!(config.swap_size_warn, Some(2048));
    assert_eq!(config.swap_size_kill, Some(512));
    assert_eq!(config.check_interval, 3);
    assert_eq!(config.report_interval, 120);
    assert!(config.notify && config.kill_group && config.debug && config.sort_by_rss);
    assert!(config.dry_run && config.ignore_root_user);
    assert_eq!(config.pre_kill_script.as_deref(), Some("/etc/pre.sh"));
    assert_eq!(config.post_kill_script.as_deref(), Some("/etc/post.sh"));
    assert_eq!(config.priority, Some(-5));
    assert_eq!(config.prefer.len(), 2);
    assert!(config.prefer[1].is_match("firefox-bin"));
    assert!(!config.prefer[0].is_match("firefox-bin"));
    assert!(config.avoid[0].is_match("sshd"));
    assert!(config.ignore[0].is_match("systemd-journald"));
}

#[test]
fn from_args_reports_the_first_failure() {
    let mut args = no_args();
    args.mem_threshold = Some("x".to_string());
    args.swap_threshold = Some("1,y".to_string());
    assert_eq!(
        Config::from_args(args, &EnvOverrides::none()).unwrap_err(),
        ConfigError::InvalidThreshold
    );
    let mut args = no_args();
    args.swap_threshold = Some("1,y".to_string());
    args.mem_size_kb = Some("z".to_string());
    assert_eq!(
        Config::from_args(args, &EnvOverrides::none()).unwrap_err(),
        ConfigError::InvalidKillThreshold
    );
    let mut args = no_args();
    args.swap_size_kb = Some("5,".to_string());
    args.prefer = vec!["[".to_string()];
    assert_eq!(
        Config::from_args(args, &EnvOverrides::none()).unwrap_err(),
        ConfigError::InvalidKillSize
    );
    let mut args = no_args();
    args.avoid = vec!["ok".to_string(), "a".repeat(257)];
    args.priority = Some(99);
    assert_eq!(
        Config::from_args(args, &EnvOverrides::none()).unwrap_err(),
        ConfigError::PatternTooLong
    );
    let mut args = no_args();
    args.ignore = vec!["(".to_string()];
    assert_eq!(
        Config::from_args(args, &EnvOverrides::none()).unwrap_err(),
        ConfigError::InvalidPattern
    );
    let mut args = no_args();
    args.mem_threshold = Some("101".to_string());
    assert_eq!(
        Config::from_args(args, &EnvOverrides::none()).unwrap_err(),
        ConfigError::ThresholdOutOfRange(ThresholdField::MemWarn)
    );
    let mut args = no_args();
    args.priority = Some(20);
    assert_eq!(
        Config::from_args(args, &EnvOverrides::none()).unwrap_err(),
        ConfigError::PriorityOutOfRange
    );
}

#[test]
fn environment_overrides_the_command_line() {
    let mut args = no_args();
    args.mem_threshold = Some("20,8".to_string());
    args.interval = Some(3);
    let mut env = EnvOverrides::none();
    env.mem_warn = Some("25.5".to_string());
    env.swap_kill = Some("1".to_string());
    env.mem_size_warn = Some("4096".to_string());
    env.swap_size_kill = Some("+7".to_string());
    env.interval = Some("9".to_string());
    env.report = Some("600".to_string());
    env.sort_by_rss = Some("YES".to_string());
    env.dry_run = Some("on".to_string());
    env.debug = Some("1".to_string());
    env.notify = Some("true".to_string());
    env.ignore_root_user = Some("True".to_string());
    env.kill_group = Some("off".to_string());
    env.priority = Some("-20".to_string());
    let config = Config::from_args(args, &env).unwrap();
    assert_eq!(config.mem_threshold_warn.millis(), 25_500);
    assert_eq!(config.mem_threshold_kill.millis(), 8_000);
    assert_eq!(config.swap_threshold_kill.millis(), 1_000);
    assert_eq!(config.mem_size_warn, Some(4096));
    assert_eq!(config.mem_size_kill, None);
    assert_eq!(config.swap_size_kill, Some(7));
    assert_eq!(config.check_interval, 9);
    assert_eq!(config.report_interval, 600);
    assert!(config.sort_by_rss && config.dry_run && config.debug && config.notify);
    assert!(config.ignore_root_user);
    assert!(!config.kill_group);
    assert_eq!(config.priority, Some(-20));
}

#[test]
fn environment_errors_name_the_first_bad_variable() {
    let mut env = EnvOverrides::none();
    env.swap_warn = Some("ten".to_string());
    env.priority = Some("high".to_string());
    assert_eq!(
        apply_env_overrides(Config::default(), &env).unwrap_err(),
        ConfigError::InvalidEnvValue(EnvVar::SwapWarn)
    );
    env.swap_warn = None;
    env.dry_run = Some("maybe".to_string());
    assert_eq!(
        apply_env_overrides(Config::default(), &env).unwrap_err(),
        ConfigError::InvalidEnvValue(EnvVar::DryRun)
    );
    env.dry_run = None;
    assert_eq!(
        apply_env_overrides(Config::default(), &env).unwrap_err(),
        ConfigError::InvalidEnvValue(EnvVar::Priority)
    );
    env.priority = Some("2147483648".to_string());
    assert_eq!(
        apply_env_overrides(Config::default(), &env).unwrap_err(),
        ConfigError::InvalidEnvValue(EnvVar::Priority)
    );
    env.priority = Some("-2147483648".to_string());
    assert_eq!(apply_env_overrides(Config::default(), &env).unwrap().priority, Some(i32::MIN));
    let mut env = EnvOverrides::none();
    env.mem_size_kill = Some("1k".to_string());
    assert_eq!(
        apply_env_overrides(Config::default(), &env).unwrap_err(),
        ConfigError::InvalidEnvValue(EnvVar::MemSizeKill)
    );
    let mut env = EnvOverrides::none();
    env.interval = Some("".to_string());
    assert_eq!(
        apply_env_overrides(Config::default(), &env).unwrap_err(),
        ConfigError::InvalidEnvValue(EnvVar::Interval)
    );
}

#[test]
fn environment_value_out_of_range_fails_validation() {
    let mut env = EnvOverrides::none();
    env.mem_kill = Some("-1".to_string());
    assert_eq!(
        Config::from_args(no_args(), &env).unwrap_err(),
        ConfigError::ThresholdOutOfRange(ThresholdField::MemKill)
    );
}

#[test]
fn compile_patterns_keeps_the_order_and_stops_at_the_first_failure() {
    let ok = compile_patterns(&vec!["a".to_string(), "b".to_string()]).unwrap();
    assert_eq!(ok.len(), 2);
    assert!(ok[0].is_match("a") && !ok[0].is_match("b"));
    assert!(ok[1].is_match("b") && !ok[1].is_match("a"));
    assert!(compile_patterns(&Vec::new()).unwrap().is_empty());
    assert_eq!(
        compile_patterns(&vec!["(".to_string(), "a".repeat(300)]).unwrap_err(),
        ConfigError::InvalidPattern
    );
    assert_eq!(
        compile_patterns(&vec!["a".repeat(300), "(".to_string()]).unwrap_err(),
        ConfigError::PatternTooLong
    );
}

#[test]
fn thresholds_are_read_over_the_defaults() {
    let mut args = no_args();
    args.swap_threshold = Some("30,20".to_string());
    args.mem_size_kb = Some("100".to_string());
    let base = Config::with_thresholds(&args).unwrap();
    assert_eq!(base.mem_threshold_warn.millis(), 10_000);
    assert_eq!(base.swap_threshold_warn.millis(), 30_000);
    assert_eq!(base.swap_threshold_kill.millis(), 20_000);
    assert_eq!((base.mem_size_warn, base.mem_size_kill), (Some(100), Some(50)));
    assert_eq!((base.swap_size_warn, base.swap_size_kill), (None, None));
    args.swap_size_kb = Some("".to_string());
    assert_eq!(Config::with_thresholds(&args).unwrap_err(), ConfigError::InvalidSize);
}

#[test]
fn assemble_takes_the_compiled_patterns_as_they_are() {
    let mut args = no_args();
    args.interval = Some(4);
    args.dry_run = true;
    let prefer = vec![compile_safe_regex("p").unwrap()];
    let avoid = vec![compile_safe_regex("a").unwrap(), compile_safe_regex("b").unwrap()];
    let mut env = EnvOverrides::none();
    env.dry_run = Some("no".to_string());
    let config =
        Config::assemble(Config::default(), args, prefer, avoid, Vec::new(), &env).unwrap();
    assert_eq!(config.check_interval, 4);
    assert!(!config.dry_run);
    assert_eq!(config.prefer.len(), 1);
    assert_eq!(config.prefer[0].as_str(), "p");
    assert_eq!(config.avoid[1].as_str(), "b");
    assert!(config.ignore.is_empty());
    let mut args = no_args();
    args.priority = Some(-21);
    assert_eq!(
        Config::assemble(Config::default(), args, Vec::new(), Vec::new(), Vec::new(), &env)
            .unwrap_err(),
        ConfigError::PriorityOutOfRange
    );
}

#[test]
fn compiled_patterns_carry_the_text_they_were_given() {
    let mut args = no_args();
    args.prefer = vec!["^a+$".to_string()];
    args.ignore = vec!["b|c".to_string(), "d".to_string()];
    let config = Config::from_args(args, &EnvOverrides::none()).unwrap();
    assert_eq!(config.prefer[0].as_str(), "^a+$");
    assert_eq!(config.ignore[0].as_str(), "b|c");
    assert_eq!(config.ignore[1].as_str(), "d");
    assert!(config.avoid.is_empty());
}

#[test]
fn pattern_that_needs_more_than_a_small_ceiling_compiles_under_ten_mebibytes() {
    // `\w` alone compiles to well over 45 000 bytes, and to far less than 10 MiB
    let word = compile_safe_regex(r"\w+").unwrap();
    assert!(word.is_match("größe"));
    assert!(!word.is_match("---"));
}
