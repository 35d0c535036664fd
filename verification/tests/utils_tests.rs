use statusline::config::Config;
use statusline::context_learning::{ContextLearner, LearnedWindow};
use statusline::models::{
    CompactionState, ContextUsage, Message, TokenBreakdown, TranscriptEntry, Usage,
};
use statusline::utils::{
    calculate_context_usage, detect_compaction_state, duration_between, estimate_usage,
    format_token_count, get_context_window_for_model, get_learned_context_window,
    get_token_breakdown_from_transcript, get_token_count_from_transcript, is_transcript_path,
    parse_duration, parse_iso8601_to_unix, pick_first_reading, plan_tail_read,
    sanitize_for_terminal, shorten_path, strip_control_characters, tail_lines,
    validate_transcript_file, CompactionSignals, LineWindow, TailPlan,
};

fn test_config() -> Config {
    Config::default()
}

fn no_signals() -> CompactionSignals {
    CompactionSignals { hook_state: None, last_known_tokens: None, modified_secs_ago: None }
}

fn usage(input: Option<u32>, cache_read: Option<u32>, cache_creation: Option<u32>, output: Option<u32>) -> Usage {
    Usage {
        input_tokens: input,
        output_tokens: output,
        cache_read_input_tokens: cache_read,
        cache_creation_input_tokens: cache_creation,
    }
}

fn entry(role: &str, usage: Option<Usage>, timestamp: &str) -> Option<TranscriptEntry> {
    Some(TranscriptEntry {
        message: Message { role: role.to_string(), usage },
        timestamp: timestamp.to_string(),
    })
}

fn assistant(input: u32, output: u32) -> Option<TranscriptEntry> {
    entry(
        "assistant",
        Some(usage(Some(input), None, None, Some(output))),
        "2025-08-22T18:32:37.789Z",
    )
}

fn validate(path: &str, canonical: Option<&str>, is_file: bool) -> bool {
    validate_transcript_file(path, canonical.map(|c| c.to_string()), is_file).is_ok()
}

#[test]
fn test_validate_transcript_file_security() {
    // Null bytes, whatever the file system says.
    assert!(!validate("/tmp/test\0.jsonl", None, false));
    assert!(!validate("/tmp/test\0.jsonl", Some("/tmp/test.jsonl"), true));
    assert!(!validate("/tmp\0/test.jsonl", Some("/tmp/test.jsonl"), true));

    // A file that does not exist does not resolve.
    assert!(!validate("/definitely/does/not/exist.jsonl", None, false));

    // A directory.
    assert!(!validate("/tmp", Some("/tmp"), false));

    // A file of another kind.
    assert!(!validate("/tmp/test.txt", Some("/tmp/test.txt"), true));

    // The extension in capitals.
    assert!(validate("/tmp/x.JSONL", Some("/tmp/x.JSONL"), true));
    assert!(validate("/tmp/x.JsonL", Some("/tmp/x.JsonL"), true));
    assert!(validate("/tmp/x.jsonl", Some("/tmp/x.jsonl"), true));
}

#[test]
fn test_malicious_transcript_paths() {
    let paths = [
        "../../../etc/passwd",
        "../../../../../../etc/shadow",
        "/tmp/test.jsonl; rm -rf /",
        "/tmp/test.jsonl && echo hacked",
        "/tmp/test.jsonl | cat /etc/passwd",
        "/tmp/test.jsonl`whoami`",
        "/tmp/test.jsonl$(whoami)",
        "/tmp/test\0.jsonl",
        "/tmp\0/test.jsonl",
        "/tmp/test\n.jsonl",
        "/tmp/test\r.jsonl",
    ];
    for path in paths {
        // The file system does not resolve the path.
        assert!(!validate(path, None, false), "accepted {:?}", path);
    }
    // Even where such a path resolves to a regular file, it is no transcript.
    assert!(!validate("../../../etc/passwd", Some("/etc/passwd"), true));
    assert!(!validate("../../../../../../etc/shadow", Some("/etc/shadow"), true));
    assert!(!validate("/tmp/test.jsonl; rm -rf /", Some("/tmp/test.jsonl; rm -rf /"), true));
    assert!(!validate(
        "/tmp/test.jsonl && echo hacked",
        Some("/tmp/test.jsonl && echo hacked"),
        true
    ));
    assert!(!validate(
        "/tmp/test.jsonl | cat /etc/passwd",
        Some("/tmp/test.jsonl | cat /etc/passwd"),
        true
    ));
    assert!(!validate("/tmp/test.jsonl`whoami`", Some("/tmp/test.jsonl`whoami`"), true));
    assert!(!validate("/tmp/test.jsonl$(whoami)", Some("/tmp/test.jsonl$(whoami)"), true));
    assert!(!validate("/tmp/test\0.jsonl", Some("/tmp/test\0.jsonl"), true));
    assert!(!validate("/tmp\0/test.jsonl", Some("/tmp\0/test.jsonl"), true));
}

#[test]
fn metacharacters_alone_are_no_transcript() {
    for path in [";", "|", "&", "&&", "`", "$(reboot)", "*", ">", "<", "~", "..", ".", "/", ""] {
        assert!(!validate(path, None, false), "accepted {:?}", path);
        assert!(!validate(path, Some(path), true), "accepted {:?}", path);
    }
}

#[test]
fn transcript_errors_carry_their_messages() {
    let message = |r: Result<String, statusline::error::StatuslineError>| match r {
        Err(statusline::error::StatuslineError::InvalidPath(m)) => m,
        other => panic!("unexpected result: {:?}", other),
    };
    assert_eq!(
        message(validate_transcript_file("a\0.jsonl", Some("/a.jsonl".to_string()), true)),
        "Path contains null bytes"
    );
    assert_eq!(
        message(validate_transcript_file("/a.jsonl", None, true)),
        "Cannot canonicalize path: /a.jsonl"
    );
    assert_eq!(
        message(validate_transcript_file("/a.jsonl", Some("/a.jsonl".to_string()), false)),
        "Path is not a file: /a.jsonl"
    );
    assert_eq!(
        message(validate_transcript_file("/a", Some("/a".to_string()), true)),
        "File must have .jsonl extension"
    );
    assert_eq!(
        message(validate_transcript_file("/a.json", Some("/a.json".to_string()), true)),
        "Only .jsonl files are allowed for transcripts"
    );
    assert_eq!(
        validate_transcript_file("t.jsonl", Some("/work/t.jsonl".to_string()), true).unwrap(),
        "/work/t.jsonl"
    );
}

#[test]
fn extension_is_read_from_the_last_segment() {
    assert!(is_transcript_path("/a/b.jsonl"));
    assert!(is_transcript_path("b.jsonl"));
    assert!(is_transcript_path("/a/b.c.jsonl"));
    assert!(is_transcript_path("/a.d/b.JSONL"));
    assert!(!is_transcript_path("/a.jsonl/b"));
    assert!(!is_transcript_path("/a/.jsonl"));
    assert!(!is_transcript_path(".jsonl"));
    assert!(!is_transcript_path("/a/b.jsonl/"));
    assert!(!is_transcript_path("/a/b.jsonl.txt"));
    assert!(!is_transcript_path("/a/b.jsonlx"));
    assert!(!is_transcript_path("/a/b.json"));
    assert!(!is_transcript_path("/a/b."));
    assert!(!is_transcript_path("/a/bjsonl"));
    assert!(!is_transcript_path("/a/.."));
    assert!(!is_transcript_path(""));
}

#[test]
fn test_sanitize_for_terminal() {
    assert_eq!(sanitize_for_terminal("\x1b[31mRed Text\x1b[0m"), "Red Text");
    assert_eq!(sanitize_for_terminal("\x1b[1;32mBold Green\x1b[0m"), "Bold Green");

    assert_eq!(sanitize_for_terminal("Hello\x00World"), "HelloWorld");
    assert_eq!(sanitize_for_terminal("Text\x1bEscape"), "TextEscape");
    assert_eq!(sanitize_for_terminal("Bell\x07Sound"), "BellSound");

    assert_eq!(sanitize_for_terminal("Line1\nLine2\tTabbed"), "Line1\nLine2\tTabbed");
    assert_eq!(sanitize_for_terminal("Windows\r\nLineEnd"), "Windows\r\nLineEnd");

    assert_eq!(sanitize_for_terminal("\x1b[31mDanger\x00\x07\x1b[0m\nSafe"), "Danger\nSafe");

    assert_eq!(sanitize_for_terminal("Unicode: 🚀 日本語"), "Unicode: 🚀 日本語");

    assert_eq!(sanitize_for_terminal("Text\u{0080}\u{009F}More"), "TextMore");
}

#[test]
fn test_sanitized_output() {
    let malicious_dir = "/home/user/\x1b[31mdanger\x1b[0m/project";
    let model_with_control = "model-\x00-opus\x07";

    let short_dir = sanitize_for_terminal(&shorten_path(malicious_dir, Some("/home/other")));
    assert!(!short_dir.contains('\x1b'));
    assert!(!short_dir.contains('\x00'));
    assert!(!short_dir.contains('\x07'));
    assert_eq!(short_dir, "/home/user/danger/project");

    let sanitized_model = sanitize_for_terminal(model_with_control);
    assert_eq!(sanitized_model, "model--opus");
}

#[test]
fn control_characters_are_stripped_alone() {
    assert_eq!(strip_control_characters("a\x1b[31mb"), "a[31mb");
    assert_eq!(strip_control_characters("\x7f\x1f\x20"), " ");
    assert_eq!(strip_control_characters("\u{9f}\u{a0}"), "\u{a0}");
    assert_eq!(strip_control_characters(""), "");
}

#[test]
fn test_shorten_path() {
    let home = "/home/user".to_string();

    let path = format!("{}/projects/test", home);
    assert_eq!(shorten_path(&path, Some(&home)), "~/projects/test");

    assert_eq!(shorten_path("/usr/local/bin", Some(&home)), "/usr/local/bin");

    assert_eq!(shorten_path(&home, Some(&home)), "~");

    assert_eq!(shorten_path("", Some(&home)), "");
}

#[test]
fn shorten_path_without_a_home() {
    assert_eq!(shorten_path("/home/user/x", None), "/home/user/x");
    assert_eq!(shorten_path("/a/home/user", Some("/home/user")), "/a/home/user");
    assert_eq!(shorten_path("/home/username", Some("/home/user")), "~name");
}

#[test]
fn test_context_usage_levels() {
    let low = ContextUsage {
        percentage: 10_000,
        approaching_limit: false,
        tokens_remaining: 180_000,
        compaction_state: CompactionState::Normal,
    };
    let medium = ContextUsage {
        percentage: 55_000,
        approaching_limit: false,
        tokens_remaining: 90_000,
        compaction_state: CompactionState::Normal,
    };
    let high = ContextUsage {
        percentage: 75_000,
        approaching_limit: false,
        tokens_remaining: 50_000,
        compaction_state: CompactionState::Normal,
    };
    let critical = ContextUsage {
        percentage: 95_000,
        approaching_limit: true,
        tokens_remaining: 10_000,
        compaction_state: CompactionState::Normal,
    };

    assert_eq!(low.percentage, 10_000);
    assert!(!low.approaching_limit);

    assert_eq!(medium.percentage, 55_000);
    assert!(!medium.approaching_limit);

    assert_eq!(high.percentage, 75_000);
    assert!(!high.approaching_limit);

    assert_eq!(critical.percentage, 95_000);
    assert!(critical.approaching_limit);
}

#[test]
fn test_calculate_context_usage() {
    let cfg = test_config();
    let learner = ContextLearner::new();

    // A transcript that could not be read gives no lines.
    assert!(calculate_context_usage(&vec![], None, &no_signals(), &learner, &cfg).is_none());

    let lines = vec![
        assistant(120000, 5000),
        entry("user", None, "2025-08-22T18:33:00.000Z"),
    ];
    let result = calculate_context_usage(&lines, None, &no_signals(), &learner, &cfg);
    assert!(result.is_some());
    let usage = result.unwrap();

    // 125000 of 200000 tokens are 62.5 %.
    assert_eq!(usage.percentage, 62_500);
}

#[test]
fn test_calculate_context_usage_with_cache_tokens() {
    let lines = vec![entry(
        "assistant",
        Some(usage(Some(100), Some(30000), Some(200), Some(500))),
        "2025-08-22T18:32:37.789Z",
    )];

    let cfg = test_config();
    let result =
        calculate_context_usage(&lines, None, &no_signals(), &ContextLearner::new(), &cfg);
    assert!(result.is_some());
    let usage = result.unwrap();

    // 30800 of 200000 tokens are 15.4 %.
    assert_eq!(usage.percentage, 15_400);
}

#[test]
fn test_calculate_context_usage_with_array_content() {
    let lines = vec![assistant(50000, 1000)];

    let cfg = test_config();
    let result =
        calculate_context_usage(&lines, None, &no_signals(), &ContextLearner::new(), &cfg);
    assert!(result.is_some());
    let usage = result.unwrap();

    // 51000 of 200000 tokens are 25.5 %.
    assert_eq!(usage.percentage, 25_500);
}

#[test]
fn test_model_based_context_window() {
    let lines = vec![assistant(100000, 0)];
    let cfg = test_config();
    let learner = ContextLearner::new();

    let result =
        calculate_context_usage(&lines, Some("Sonnet 4.5"), &no_signals(), &learner, &cfg);
    assert!(result.is_some());
    assert_eq!(result.unwrap().percentage, 50_000);

    let result =
        calculate_context_usage(&lines, Some("3.5 Sonnet"), &no_signals(), &learner, &cfg);
    assert!(result.is_some());
    assert_eq!(result.unwrap().percentage, 50_000);

    let result = calculate_context_usage(&lines, Some("3.5 Opus"), &no_signals(), &learner, &cfg);
    assert!(result.is_some());
    assert_eq!(result.unwrap().percentage, 50_000);

    let result = calculate_context_usage(&lines, None, &no_signals(), &learner, &cfg);
    assert!(result.is_some());
    assert_eq!(result.unwrap().percentage, 50_000);
}

#[test]
fn percentage_in_both_modes() {
    let mut cfg = test_config();
    let usage = estimate_usage(125_000, 200_000, CompactionState::Normal, &cfg);
    assert_eq!(usage.percentage, 62_500);
    assert!(!usage.approaching_limit);
    assert_eq!(usage.tokens_remaining, 35_000);

    cfg.context.percentage_mode = "working".to_string();
    let usage = estimate_usage(125_000, 200_000, CompactionState::Normal, &cfg);
    assert_eq!(usage.percentage, 78_125);
    assert!(!usage.approaching_limit);
    assert_eq!(usage.tokens_remaining, 35_000);
}

#[test]
fn both_modes_warn_at_the_same_count() {
    let mut cfg = test_config();
    assert!(!estimate_usage(149_999, 200_000, CompactionState::Normal, &cfg).approaching_limit);
    assert!(estimate_usage(150_000, 200_000, CompactionState::Normal, &cfg).approaching_limit);
    cfg.context.percentage_mode = "working".to_string();
    assert!(!estimate_usage(150_000, 200_000, CompactionState::Normal, &cfg).approaching_limit);
    assert!(estimate_usage(150_400, 200_000, CompactionState::Normal, &cfg).approaching_limit);
    assert!(!estimate_usage(150_399, 200_000, CompactionState::Normal, &cfg).approaching_limit);
}

#[test]
fn learned_window_is_the_working_window() {
    let mut cfg = test_config();
    cfg.context.adaptive_learning = true;
    // 150000 of 156000 + 40000 tokens.
    let usage = estimate_usage(150_000, 156_000, CompactionState::Normal, &cfg);
    assert_eq!(usage.percentage, 76_530);
    assert_eq!(usage.tokens_remaining, 6_000);
    cfg.context.percentage_mode = "working".to_string();
    let usage = estimate_usage(150_000, 156_000, CompactionState::Normal, &cfg);
    assert_eq!(usage.percentage, 96_153);
    assert!(usage.approaching_limit);
}

#[test]
fn percentage_is_capped() {
    let cfg = test_config();
    let usage = estimate_usage(500_000, 200_000, CompactionState::InProgress, &cfg);
    assert_eq!(usage.percentage, 100_000);
    assert!(usage.approaching_limit);
    assert_eq!(usage.tokens_remaining, 0);
    assert_eq!(usage.compaction_state, CompactionState::InProgress);

    let usage = estimate_usage(u64::MAX, 1, CompactionState::Normal, &cfg);
    assert_eq!(usage.percentage, 100_000);
}

#[test]
fn empty_window_is_full_at_once() {
    let mut cfg = test_config();
    cfg.context.percentage_mode = "working".to_string();
    // The buffer leaves nothing of the window.
    let usage = estimate_usage(1, 30_000, CompactionState::Normal, &cfg);
    assert_eq!(usage.percentage, 100_000);
    assert!(usage.approaching_limit);
    assert_eq!(usage.tokens_remaining, 0);
    let usage = estimate_usage(0, 30_000, CompactionState::Normal, &cfg);
    assert_eq!(usage.percentage, 100_000);
    assert!(!usage.approaching_limit);
}

#[test]
fn test_parse_iso8601_to_unix() {
    assert_eq!(
        parse_iso8601_to_unix("2025-08-25T10:00:00.000Z").unwrap(),
        parse_iso8601_to_unix("2025-08-25T10:00:00.000Z").unwrap()
    );

    let t1 = parse_iso8601_to_unix("2025-08-25T10:00:00.000Z").unwrap();
    let t2 = parse_iso8601_to_unix("2025-08-25T10:05:00.000Z").unwrap();
    assert_eq!(t2 - t1, 300);

    let t3 = parse_iso8601_to_unix("2025-08-25T10:00:00.000Z").unwrap();
    let t4 = parse_iso8601_to_unix("2025-08-25T11:00:00.000Z").unwrap();
    assert_eq!(t4 - t3, 3600);

    assert!(parse_iso8601_to_unix("2025-08-25T10:00:00.123Z").is_some());

    assert!(parse_iso8601_to_unix("2025-08-25 10:00:00").is_none());
    assert!(parse_iso8601_to_unix("2025-08-25T10:00:00").is_some());
    assert!(parse_iso8601_to_unix("not a timestamp").is_none());
}

#[test]
fn timestamps_are_seconds_since_the_epoch() {
    assert_eq!(parse_iso8601_to_unix("2025-08-25T10:00:00Z"), Some(1_756_116_000));
    assert_eq!(parse_iso8601_to_unix("2025-08-25T10:00:00"), Some(1_756_116_000));
    assert_eq!(parse_iso8601_to_unix("2025-08-25T10:00:00.5"), Some(1_756_116_000));
    assert_eq!(parse_iso8601_to_unix("2025-08-25T12:00:00+02:00"), Some(1_756_116_000));
    assert_eq!(parse_iso8601_to_unix("1970-01-01T00:00:00Z"), Some(0));
    assert_eq!(parse_iso8601_to_unix("1969-12-31T23:59:59Z"), Some(u64::MAX));
    assert_eq!(parse_iso8601_to_unix(""), None);
}

#[test]
fn first_reading_wins() {
    assert_eq!(pick_first_reading(Some(1), Some(2), Some(3)), Some(1));
    assert_eq!(pick_first_reading(None, Some(2), Some(3)), Some(2));
    assert_eq!(pick_first_reading(None, None, Some(3)), Some(3));
    assert_eq!(pick_first_reading(None, None, None), None);
    assert_eq!(pick_first_reading(Some(-1), None, None), Some(u64::MAX));
    assert_eq!(pick_first_reading(Some(i64::MIN), None, None), Some(1u64 << 63));
}

#[test]
fn test_parse_duration() {
    assert!(parse_duration(&vec![]).is_none());

    let lines = vec![
        entry("assistant", None, "2025-08-22T18:00:00.000Z"),
        entry("user", None, "2025-08-22T19:00:00.000Z"),
    ];
    let result = parse_duration(&lines);
    assert!(result.is_some());
    assert_eq!(result.unwrap(), 3600);

    let single = vec![entry("assistant", None, "2025-08-22T18:00:00.000Z")];
    let result2 = parse_duration(&single);
    assert!(result2.is_none());
}

#[test]
fn test_parse_duration_with_realistic_timestamps() {
    let lines = vec![
        entry("user", None, "2025-08-25T10:00:00.000Z"),
        entry(
            "assistant",
            Some(usage(Some(100), None, None, Some(50))),
            "2025-08-25T10:05:00.000Z",
        ),
    ];
    let result = parse_duration(&lines);
    assert!(result.is_some());
    assert_eq!(result.unwrap(), 300);

    let lines2 = vec![
        entry("user", None, "2025-08-25T10:00:00.000Z"),
        entry("assistant", None, "2025-08-25T10:10:00.000Z"),
    ];
    let result2 = parse_duration(&lines2);
    assert!(result2.is_some());
    assert_eq!(result2.unwrap(), 600);
}

#[test]
fn duration_needs_a_first_line_that_decodes() {
    let lines = vec![
        None,
        entry("user", None, "2025-08-25T10:00:00.000Z"),
        entry("assistant", None, "2025-08-25T10:10:00.000Z"),
    ];
    assert_eq!(parse_duration(&lines), None);
}

#[test]
fn duration_ends_at_the_last_line_that_decodes() {
    let lines = vec![
        entry("user", None, "2025-08-25T10:00:00.000Z"),
        entry("assistant", None, "2025-08-25T10:10:00.000Z"),
        None,
        None,
    ];
    assert_eq!(parse_duration(&lines), Some(600));

    let unreadable_end = vec![
        entry("user", None, "2025-08-25T10:00:00.000Z"),
        entry("assistant", None, "2025-08-25T10:10:00.000Z"),
        entry("assistant", None, "later"),
    ];
    assert_eq!(parse_duration(&unreadable_end), None);

    let backwards = vec![
        entry("user", None, "2025-08-25T10:10:00.000Z"),
        entry("assistant", None, "2025-08-25T10:00:00.000Z"),
    ];
    assert_eq!(parse_duration(&backwards), None);
}

#[test]
fn duration_between_moments() {
    assert_eq!(duration_between(Some(10), Some(25)), Some(15));
    assert_eq!(duration_between(Some(10), Some(10)), None);
    assert_eq!(duration_between(Some(25), Some(10)), None);
    assert_eq!(duration_between(None, Some(10)), None);
    assert_eq!(duration_between(Some(10), None), None);
    assert_eq!(duration_between(None, None), None);
}

#[test]
fn test_format_token_count() {
    assert_eq!(format_token_count(0), "0");

    assert_eq!(format_token_count(500), "1k");
    assert_eq!(format_token_count(999), "1k");
    assert_eq!(format_token_count(1234), "1k");
    assert_eq!(format_token_count(1500), "2k");

    assert_eq!(format_token_count(179000), "179k");
    assert_eq!(format_token_count(200000), "200k");
    assert_eq!(format_token_count(1000000), "1000k");

    assert_eq!(format_token_count(1), "1k");
    assert_eq!(format_token_count(100), "1k");
}

#[test]
fn token_count_rounds_to_the_nearest_thousand() {
    assert_eq!(format_token_count(1499), "1k");
    assert_eq!(format_token_count(2499), "2k");
    assert_eq!(format_token_count(2500), "3k");
    assert_eq!(format_token_count(999_499), "999k");
    assert_eq!(format_token_count(999_500), "1000k");
    assert_eq!(format_token_count(usize::MAX), format!("{}k", (usize::MAX as u128 + 500) / 1000));
}

#[test]
fn compaction_is_detected_from_the_drop() {
    // A fall from 200000 to 50000 tokens, written two seconds ago.
    assert_eq!(
        detect_compaction_state(50_000, None, Some(200_000), Some(2)),
        CompactionState::InProgress
    );
    // The same fall, written half a minute ago.
    assert_eq!(
        detect_compaction_state(50_000, None, Some(200_000), Some(30)),
        CompactionState::RecentlyCompleted
    );
    // Nothing on record.
    assert_eq!(detect_compaction_state(50_000, None, None, Some(2)), CompactionState::Normal);
    assert_eq!(detect_compaction_state(0, None, None, None), CompactionState::Normal);
    assert_eq!(
        detect_compaction_state(u64::MAX, None, None, Some(0)),
        CompactionState::Normal
    );
}

#[test]
fn compaction_needs_more_than_half() {
    assert_eq!(
        detect_compaction_state(100_000, None, Some(200_000), Some(2)),
        CompactionState::Normal
    );
    assert_eq!(
        detect_compaction_state(99_999, None, Some(200_000), Some(2)),
        CompactionState::InProgress
    );
    assert_eq!(
        detect_compaction_state(99_999, None, Some(200_000), None),
        CompactionState::RecentlyCompleted
    );
    assert_eq!(
        detect_compaction_state(250_000, None, Some(200_000), Some(2)),
        CompactionState::Normal
    );
    assert_eq!(detect_compaction_state(0, None, Some(0), Some(2)), CompactionState::Normal);
    assert_eq!(detect_compaction_state(0, None, Some(1), Some(100)), CompactionState::RecentlyCompleted);
}

#[test]
fn recent_means_less_than_ten_seconds() {
    assert_eq!(
        detect_compaction_state(50_000, None, Some(200_000), Some(9)),
        CompactionState::InProgress
    );
    assert_eq!(
        detect_compaction_state(50_000, None, Some(200_000), Some(10)),
        CompactionState::RecentlyCompleted
    );
}

#[test]
fn hook_signal_overrides_the_rest() {
    assert_eq!(
        detect_compaction_state(50_000, Some("compacting"), None, None),
        CompactionState::InProgress
    );
    assert_eq!(
        detect_compaction_state(200_000, Some("compacting"), Some(200_000), Some(100)),
        CompactionState::InProgress
    );
    assert_eq!(
        detect_compaction_state(200_000, Some("idle"), Some(200_000), Some(1)),
        CompactionState::Normal
    );
    assert_eq!(
        detect_compaction_state(50_000, Some("normal"), Some(200_000), Some(30)),
        CompactionState::RecentlyCompleted
    );
}

#[test]
fn usage_carries_the_compaction_state() {
    let cfg = test_config();
    let learner = ContextLearner::new();
    let lines = vec![assistant(50_000, 0)];
    let signals = CompactionSignals {
        hook_state: None,
        last_known_tokens: Some(200_000),
        modified_secs_ago: Some(2),
    };
    let usage = calculate_context_usage(&lines, None, &signals, &learner, &cfg).unwrap();
    assert_eq!(usage.compaction_state, CompactionState::InProgress);
    assert_eq!(usage.percentage, 25_000);
    assert_eq!(usage.tokens_remaining, 110_000);

    let signals = CompactionSignals {
        hook_state: Some("compacting".to_string()),
        last_known_tokens: None,
        modified_secs_ago: None,
    };
    let usage = calculate_context_usage(&lines, None, &signals, &learner, &cfg).unwrap();
    assert_eq!(usage.compaction_state, CompactionState::InProgress);
}

#[test]
fn peak_is_the_highest_total_not_the_last() {
    let lines = vec![
        assistant(1_000, 10),
        assistant(90_000, 500),
        None,
        entry("user", Some(usage(Some(999_999), None, None, None)), "t"),
        assistant(20_000, 20),
    ];
    assert_eq!(
        get_token_breakdown_from_transcript(&lines),
        Some(TokenBreakdown {
            input_tokens: 90_000,
            output_tokens: 500,
            cache_read_tokens: 0,
            cache_creation_tokens: 0,
        })
    );
    assert_eq!(get_token_count_from_transcript(&lines), Some(90_500));
}

#[test]
fn peak_is_the_earliest_of_equals() {
    let lines = vec![
        entry("assistant", Some(usage(Some(10), Some(20), Some(30), Some(40))), "a"),
        entry("assistant", Some(usage(Some(40), Some(30), Some(20), Some(10))), "b"),
    ];
    assert_eq!(
        get_token_breakdown_from_transcript(&lines),
        Some(TokenBreakdown {
            input_tokens: 10,
            output_tokens: 40,
            cache_read_tokens: 20,
            cache_creation_tokens: 30,
        })
    );
}

#[test]
fn no_usage_gives_no_breakdown() {
    assert_eq!(get_token_breakdown_from_transcript(&vec![]), None);
    assert_eq!(get_token_count_from_transcript(&vec![]), None);
    let lines = vec![
        None,
        entry("user", None, "a"),
        entry("assistant", None, "b"),
        entry("assistant", Some(usage(None, None, None, None)), "c"),
        entry("assistant", Some(usage(Some(0), Some(0), Some(0), Some(0))), "d"),
        entry("Assistant", Some(usage(Some(5), None, None, None)), "e"),
    ];
    assert_eq!(get_token_breakdown_from_transcript(&lines), None);
    assert_eq!(get_token_count_from_transcript(&lines), None);
}

#[test]
fn totals_do_not_overflow() {
    let lines = vec![entry(
        "assistant",
        Some(usage(Some(u32::MAX), Some(u32::MAX), Some(u32::MAX), Some(u32::MAX))),
        "a",
    )];
    assert_eq!(get_token_count_from_transcript(&lines), Some(4 * (u32::MAX as u64)));
}

#[test]
fn small_files_are_read_from_the_start() {
    assert_eq!(plan_tail_read(0, 50), TailPlan { start: 0, skip_first_line: false });
    assert_eq!(plan_tail_read(1_048_575, 50), TailPlan { start: 0, skip_first_line: false });
}

#[test]
fn large_files_are_read_from_near_the_end() {
    // 50 lines of 2048 bytes are less than the least tail of 200 KiB.
    assert_eq!(
        plan_tail_read(1_048_576, 50),
        TailPlan { start: 1_048_576 - 204_800, skip_first_line: true }
    );
    assert_eq!(
        plan_tail_read(10_000_000, 100),
        TailPlan { start: 10_000_000 - 204_800, skip_first_line: true }
    );
    assert_eq!(
        plan_tail_read(10_000_000, 101),
        TailPlan { start: 10_000_000 - 206_848, skip_first_line: true }
    );
    // The tail covers the whole file.
    assert_eq!(plan_tail_read(2_000_000, 1000), TailPlan { start: 0, skip_first_line: false });
    assert_eq!(plan_tail_read(2_048_000, 1000), TailPlan { start: 0, skip_first_line: false });
    assert_eq!(plan_tail_read(2_048_001, 1000), TailPlan { start: 1, skip_first_line: true });
    assert_eq!(
        plan_tail_read(u64::MAX, usize::MAX),
        TailPlan { start: 0, skip_first_line: false }
    );
}

fn strings(items: &[&str]) -> Vec<String> {
    items.iter().map(|s| s.to_string()).collect()
}

#[test]
fn tail_lines_keeps_the_last_lines() {
    assert_eq!(tail_lines(strings(&["a", "b", "c", "d"]), false, 2), strings(&["c", "d"]));
    assert_eq!(tail_lines(strings(&["a", "b", "c", "d"]), false, 4), strings(&["a", "b", "c", "d"]));
    assert_eq!(tail_lines(strings(&["a", "b", "c", "d"]), false, 9), strings(&["a", "b", "c", "d"]));
    assert_eq!(tail_lines(strings(&["a", "b", "c", "d"]), false, 0), strings(&[]));
    assert_eq!(tail_lines(strings(&[]), false, 3), strings(&[]));
}

#[test]
fn tail_lines_drops_the_cut_line() {
    assert_eq!(tail_lines(strings(&["a", "b", "c", "d"]), true, 2), strings(&["c", "d"]));
    assert_eq!(tail_lines(strings(&["a", "b", "c", "d"]), true, 3), strings(&["b", "c", "d"]));
    assert_eq!(tail_lines(strings(&["a", "b", "c", "d"]), true, 4), strings(&["b", "c", "d"]));
    assert_eq!(tail_lines(strings(&["a"]), true, 4), strings(&[]));
    assert_eq!(tail_lines(strings(&[]), true, 4), strings(&[]));
}

#[test]
fn line_window_evicts_the_oldest() {
    let mut window = LineWindow::new(3);
    assert_eq!(window.capacity(), 3);
    assert_eq!(window.len(), 0);
    for line in ["a", "b", "c", "d", "e"] {
        window.push(line.to_string());
    }
    assert_eq!(window.len(), 3);
    assert_eq!(window.into_lines(), strings(&["c", "d", "e"]));

    let mut short = LineWindow::new(3);
    short.push("a".to_string());
    short.push("b".to_string());
    assert_eq!(short.into_lines(), strings(&["a", "b"]));

    let mut none = LineWindow::new(0);
    none.push("a".to_string());
    assert_eq!(none.len(), 0);
    assert_eq!(none.into_lines(), strings(&[]));
}

#[test]
fn line_window_agrees_with_tail_lines() {
    let all = strings(&["1", "2", "3", "4", "5", "6", "7"]);
    for capacity in 0..9 {
        let mut window = LineWindow::new(capacity);
        for line in &all {
            window.push(line.clone());
        }
        assert_eq!(window.into_lines(), tail_lines(all.clone(), false, capacity));
    }
}

#[test]
fn window_by_family_and_version() {
    let cfg = test_config();
    let learner = ContextLearner::new();
    let window = |name: &str| get_context_window_for_model(Some(name), &learner, &cfg);
    assert_eq!(window("Sonnet 4.5"), 200_000);
    assert_eq!(window("Sonnet 4"), 200_000);
    assert_eq!(window("3.5 Sonnet"), 200_000);
    assert_eq!(window("3.7 Sonnet"), 200_000);
    assert_eq!(window("Opus 4.1"), 200_000);
    assert_eq!(window("3.5 Opus"), 200_000);
    assert_eq!(window("3 Opus"), 160_000);
    assert_eq!(window("3 Sonnet"), 160_000);
    assert_eq!(window("3.4 Sonnet"), 160_000);
    assert_eq!(window("Sonnet 2.9"), 160_000);
    assert_eq!(window("Sonnet"), 160_000);
    assert_eq!(window("3.5 Haiku"), 200_000);
    assert_eq!(window("Something else"), 200_000);
    assert_eq!(get_context_window_for_model(None, &learner, &cfg), 200_000);
}

#[test]
fn window_falls_back_to_the_configured_default() {
    let mut cfg = test_config();
    cfg.context.window_size = 123_456;
    let learner = ContextLearner::new();
    assert_eq!(get_context_window_for_model(None, &learner, &cfg), 123_456);
    assert_eq!(get_context_window_for_model(Some("3 Haiku"), &learner, &cfg), 123_456);
    assert_eq!(get_context_window_for_model(Some("GPT"), &learner, &cfg), 123_456);
    assert_eq!(get_context_window_for_model(Some("Sonnet 4"), &learner, &cfg), 200_000);
}

#[test]
fn user_window_wins_over_everything() {
    let mut cfg = test_config();
    cfg.context.adaptive_learning = true;
    cfg.context.model_windows.insert("Sonnet 4.5".to_string(), 1_000_000);
    let mut learner = ContextLearner::new();
    learner.restore(
        "Sonnet 4.5".to_string(),
        LearnedWindow { compaction_point: 156_000, observations: 20, confidence: 1000 },
    );
    assert_eq!(get_context_window_for_model(Some("Sonnet 4.5"), &learner, &cfg), 1_000_000);
    // The name must match to the letter.
    assert_eq!(get_context_window_for_model(Some("sonnet 4.5"), &learner, &cfg), 200_000);
}

#[test]
fn learned_window_needs_learning_and_confidence() {
    let mut cfg = test_config();
    let mut learner = ContextLearner::new();
    learner.restore(
        "Sonnet 4.5".to_string(),
        LearnedWindow { compaction_point: 156_000, observations: 5, confidence: 700 },
    );
    learner.restore(
        "Opus 4".to_string(),
        LearnedWindow { compaction_point: 150_000, observations: 4, confidence: 550 },
    );
    // Learning is switched off.
    assert_eq!(get_context_window_for_model(Some("Sonnet 4.5"), &learner, &cfg), 200_000);
    cfg.context.adaptive_learning = true;
    assert_eq!(get_context_window_for_model(Some("Sonnet 4.5"), &learner, &cfg), 156_000);
    assert_eq!(get_context_window_for_model(Some("Opus 4"), &learner, &cfg), 200_000);
    assert_eq!(get_learned_context_window("Sonnet 4.5", &learner, &cfg), Some(156_000));
    assert_eq!(get_learned_context_window("Opus 4", &learner, &cfg), None);
    assert_eq!(get_learned_context_window("Haiku", &learner, &cfg), None);
    cfg.context.learning_confidence_threshold = 500;
    assert_eq!(get_context_window_for_model(Some("Opus 4"), &learner, &cfg), 150_000);
}
