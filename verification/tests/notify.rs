use oom_guard::notify::hooks::{HookEnvironment, HookError, HookValidator, HookWarning, ScriptFacts};
use oom_guard::notify::{sanitize_env_char, sanitize_env_value, NotificationManager};

#[test]
fn test_hook_environment_variables() {
    let vars = HookEnvironment::get_variable_names();
    assert_eq!(vars.len(), 4);
    assert!(vars.contains(&"OOM_GUARD_PID"));
    assert!(vars.contains(&"OOM_GUARD_NAME"));
    assert!(vars.contains(&"OOM_GUARD_RSS"));
    assert!(vars.contains(&"OOM_GUARD_SCORE"));
}

#[test]
fn test_hook_environment_description() {
    let desc = HookEnvironment::describe();
    assert!(desc.contains("OOM_GUARD_PID"));
    assert!(desc.contains("OOM_GUARD_NAME"));
    assert!(desc.contains("OOM_GUARD_RSS"));
    assert!(desc.contains("OOM_GUARD_SCORE"));
}

#[test]
fn test_notification_manager_creation() {
    let manager = NotificationManager::new(false, None, None);
    assert!(!manager.enable_dbus);
    assert!(manager.pre_kill_script.is_none());
    assert!(manager.post_kill_script.is_none());
}

#[test]
fn test_notification_with_scripts() {
    let manager = NotificationManager::new(
        false,
        Some("/tmp/pre.sh".to_string()),
        Some("/tmp/post.sh".to_string()),
    );
    assert!(manager.pre_kill_script.is_some());
    assert!(manager.post_kill_script.is_some());
}

#[test]
fn test_sanitize_env_value_normal() {
    assert_eq!(sanitize_env_value("firefox"), "firefox");
    assert_eq!(sanitize_env_value("my-app"), "my-app");
    assert_eq!(sanitize_env_value("app_v1.2"), "app_v1.2");
    assert_eq!(sanitize_env_value("/usr/bin/app"), "/usr/bin/app");
}

#[test]
fn test_sanitize_env_value_shell_metacharacters() {
    assert_eq!(sanitize_env_value("$(whoami)"), "__whoami_");
    assert_eq!(sanitize_env_value("`id`"), "_id_");
    assert_eq!(sanitize_env_value("a;b"), "a_b");
    assert_eq!(sanitize_env_value("a|b"), "a_b");
    assert_eq!(sanitize_env_value("a&b"), "a_b");
    assert_eq!(sanitize_env_value("a>b"), "a_b");
    assert_eq!(sanitize_env_value("a<b"), "a_b");
    assert_eq!(sanitize_env_value("a'b"), "a_b");
    assert_eq!(sanitize_env_value("a\"b"), "a_b");
    assert_eq!(sanitize_env_value("a\\nb"), "a_nb");
}

#[test]
fn test_sanitize_env_value_length_limit() {
    let long_name = "a".repeat(500);
    let sanitized = sanitize_env_value(&long_name);
    assert_eq!(sanitized.len(), 256);
}

#[test]
fn test_sanitize_env_value_control_characters() {
    assert_eq!(sanitize_env_value("a\nb"), "a_b");
    assert_eq!(sanitize_env_value("a\tb"), "a_b");
    assert_eq!(sanitize_env_value("a\0b"), "a_b");
}

#[test]
fn sanitize_env_value_replaces_blanks_and_keeps_letters_of_any_script() {
    assert_eq!(sanitize_env_value("my app"), "my_app");
    assert_eq!(sanitize_env_value("größe9"), "größe9");
    assert_eq!(sanitize_env_value("日本語.txt"), "日本語.txt");
    assert_eq!(sanitize_env_value("a=b:c,d"), "a_b_c_d");
    assert_eq!(sanitize_env_value(""), "");
}

#[test]
fn sanitize_env_value_cuts_at_256_bytes_on_a_character_boundary() {
    assert_eq!(sanitize_env_value(&"a".repeat(256)), "a".repeat(256));
    assert_eq!(sanitize_env_value(&"a".repeat(257)), "a".repeat(256));
    // every `é` takes two bytes
    assert_eq!(sanitize_env_value(&"é".repeat(200)), "é".repeat(128));
    // 255 bytes, then a two-byte character that no longer fits
    let text = format!("{}é{}", "a".repeat(255), "b");
    assert_eq!(sanitize_env_value(&text), "a".repeat(255));
    // what is replaced counts as the one byte it becomes
    assert_eq!(sanitize_env_value(&"é!".repeat(200)), "é_".repeat(85));
    // a replaced wide character shrinks to one byte
    assert_eq!(sanitize_env_value(&"\u{2028}".repeat(300)), "_".repeat(256));
}

#[test]
fn sanitize_env_char_goes_by_the_flag_it_is_given() {
    assert_eq!(sanitize_env_char('a', true), 'a');
    assert_eq!(sanitize_env_char('a', false), '_');
    assert_eq!(sanitize_env_char('.', false), '.');
    assert_eq!(sanitize_env_char('-', false), '-');
    assert_eq!(sanitize_env_char('_', false), '_');
    assert_eq!(sanitize_env_char('/', false), '/');
    assert_eq!(sanitize_env_char(' ', false), '_');
    assert_eq!(sanitize_env_char('$', false), '_');
}

#[test]
fn pre_kill_notification_is_the_scripts_call() {
    let manager = NotificationManager::new(true, Some("/etc/pre.sh".to_string()), None);
    let call = manager
        .send_pre_kill_notification(77, "evil;rm", "/bin/evil --x=$(id)", 1000, 2048, 300)
        .unwrap();
    assert_eq!(call.script, "/etc/pre.sh");
    assert_eq!(call.pid, 77);
    assert_eq!(call.name, "evil_rm");
    assert_eq!(call.cmdline, "/bin/evil_--x___id_");
    assert_eq!(call.uid, 1000);
    assert_eq!(call.rss_kb, 2048);
    assert_eq!(call.oom_score, 300);
    let none = NotificationManager::new(true, None, Some("/etc/post.sh".to_string()));
    assert!(none.send_pre_kill_notification(77, "a", "b", 0, 0, 0).is_none());
}

#[test]
fn post_kill_notification_is_the_scripts_call_and_the_notice() {
    let manager = NotificationManager::new(true, None, Some("/etc/post.sh".to_string()));
    let plan = manager.send_post_kill_notification(77, "fire fox", "/bin/ff", 1000, 4096, -1);
    let call = plan.script.unwrap();
    assert_eq!(call.script, "/etc/post.sh");
    assert_eq!(call.name, "fire_fox");
    assert_eq!(call.oom_score, -1);
    let notice = plan.notice.unwrap();
    assert_eq!(notice.summary, "OOM Guard: Process Killed");
    assert_eq!(
        notice.body,
        "OOM Guard killed process:\nPID: 77\nName: fire fox\nRSS: 4 MB"
    );
    let quiet = NotificationManager::new(false, None, None);
    let plan = quiet.send_post_kill_notification(77, "a", "b", 0, 0, 0);
    assert!(plan.script.is_none());
    assert!(plan.notice.is_none());
}

fn good_script() -> ScriptFacts {
    ScriptFacts {
        exists: true,
        link_readable: true,
        is_symlink: false,
        link_resolves: false,
        target_is_file: false,
        is_file: true,
        owner_uid: 0,
        current_uid: 0,
        mode_readable: true,
        mode: 0o755,
    }
}

#[test]
fn test_validate_nonexistent_script() {
    let facts = ScriptFacts { exists: false, ..good_script() };
    let result = HookValidator::validate_hook_script(&facts);
    assert!(result.is_err());
    assert!(result.unwrap_err().message().contains("does not exist"));
}

#[test]
fn test_validate_non_executable_script() {
    let facts = ScriptFacts { mode: 0o644, ..good_script() };
    let result = HookValidator::validate_hook_script(&facts);
    assert!(result.is_err());
    assert!(result.unwrap_err().message().contains("not executable"));
}

#[test]
fn test_validate_executable_script() {
    let result = HookValidator::validate_hook_script(&good_script());
    assert!(result.is_ok());
}

#[test]
fn test_validate_symlink_to_valid_script() {
    let facts = ScriptFacts {
        is_symlink: true,
        link_resolves: true,
        target_is_file: true,
        ..good_script()
    };
    let result = HookValidator::validate_hook_script(&facts);
    assert!(result.is_ok());
}

#[test]
fn test_validate_symlink_to_nonexistent_target() {
    let facts = ScriptFacts { exists: false, is_symlink: true, is_file: false, ..good_script() };
    let result = HookValidator::validate_hook_script(&facts);
    assert!(result.is_err());
}

#[test]
fn hook_checks_fail_in_their_order() {
    let all_bad = ScriptFacts {
        exists: false,
        link_readable: false,
        is_symlink: true,
        link_resolves: false,
        target_is_file: false,
        is_file: false,
        owner_uid: 5,
        current_uid: 6,
        mode_readable: false,
        mode: 0,
    };
    let mut facts = all_bad;
    assert_eq!(HookValidator::validate_hook_script(&facts), Err(HookError::DoesNotExist));
    facts.exists = true;
    assert_eq!(HookValidator::validate_hook_script(&facts), Err(HookError::UnreadableLinkMetadata));
    facts.link_readable = true;
    assert_eq!(HookValidator::validate_hook_script(&facts), Err(HookError::UnresolvableSymlink));
    facts.link_resolves = true;
    assert_eq!(HookValidator::validate_hook_script(&facts), Err(HookError::SymlinkToNonFile));
    facts.target_is_file = true;
    assert_eq!(HookValidator::validate_hook_script(&facts), Err(HookError::NotAFile));
    facts.is_file = true;
    assert_eq!(HookValidator::validate_hook_script(&facts), Err(HookError::UnreadableMetadata));
    facts.mode_readable = true;
    assert_eq!(HookValidator::validate_hook_script(&facts), Err(HookError::NotExecutable));
    facts.mode = 0o001;
    assert_eq!(HookValidator::validate_hook_script(&facts), Ok(()));
    facts.mode = 0o666;
    assert_eq!(HookValidator::validate_hook_script(&facts), Err(HookError::NotExecutable));
    assert_eq!(
        HookValidator::warnings(&facts),
        vec![HookWarning::IsSymlink, HookWarning::ForeignOwner]
    );
    assert!(HookValidator::warnings(&good_script()).is_empty());
}

#[test]
fn hooks_are_checked_pre_kill_first() {
    let missing = ScriptFacts { exists: false, ..good_script() };
    let plain = ScriptFacts { mode: 0o600, ..good_script() };
    assert_eq!(HookValidator::validate_hooks(None, None), Ok(()));
    assert_eq!(HookValidator::validate_hooks(Some(&good_script()), Some(&good_script())), Ok(()));
    assert_eq!(
        HookValidator::validate_hooks(Some(&missing), Some(&plain)),
        Err(HookError::DoesNotExist)
    );
    assert_eq!(
        HookValidator::validate_hooks(Some(&good_script()), Some(&plain)),
        Err(HookError::NotExecutable)
    );
    assert_eq!(HookValidator::validate_hooks(None, Some(&missing)), Err(HookError::DoesNotExist));
}

#[test]
fn hook_environment_lists_the_names_in_order() {
    assert_eq!(
        HookEnvironment::get_variable_names(),
        vec!["OOM_GUARD_PID", "OOM_GUARD_NAME", "OOM_GUARD_RSS", "OOM_GUARD_SCORE"]
    );
    assert_eq!(
        HookEnvironment::describe(),
        "Hook scripts receive the following environment variables:\n - OOM_GUARD_PID: Process ID of the killed process\n - OOM_GUARD_NAME: Name of the killed process\n - OOM_GUARD_RSS: Resident Set Size in KiB\n - OOM_GUARD_SCORE: OOM score of the process"
    );
}
