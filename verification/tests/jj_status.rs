use jj_status::config::JjStatusConfig;
use jj_status::lines::split_lines;
use jj_status::status::{
    get_jj_info, jj_log_args, jj_status, module, parse_jj_bool, truncation_len, JjAction, JjEvent,
    JjInfo, JjStatus, JJ_TEMPLATE,
};
use jj_status::truncate::truncate_text;

const TEST_CHANGE_ID: &str = "kxmynpvqwlszotryrmlqkpqrztnlmosn";

fn jj_cmd(ignore_working_copy: bool) -> Vec<&'static str> {
    let mut args = vec!["log", "--no-graph", "-r", "@"];
    if ignore_working_copy {
        args.push("--ignore-working-copy");
    }
    args.push("-T");
    args.push(JJ_TEMPLATE);
    args
}

fn mock_jj_output(change_id: &str, bookmarks: &str, conflict: bool, divergent: bool, hidden: bool) -> String {
    format!("{}\n{}\n{}\n{}\n{}", change_id, bookmarks, conflict, divergent, hidden)
}

fn enabled() -> JjStatusConfig<'static> {
    let mut config = JjStatusConfig::default();
    config.disabled = false;
    config
}

/// Drives the segment's steps: `repo_found` answers the repository lookup,
/// `output` answers a run of `jj`, and `rendered` answers the placing of
/// the values into the format string (nothing for a format string that
/// does not parse). Gives back the values placed, the segment shown, and
/// the arguments `jj` was asked to run with.
fn drive(
    config: &JjStatusConfig,
    repo_found: bool,
    output: Option<&str>,
    rendered: Option<&str>,
) -> (Option<JjStatus>, Option<String>, Option<Vec<&'static str>>) {
    let mut event = JjEvent::Start;
    let mut ran = None;
    let mut placed = None;
    loop {
        match module(config, event) {
            JjAction::DiscoverRepo => event = JjEvent::RepoFound(repo_found),
            JjAction::RunJj(args) => {
                assert!(ran.is_none());
                ran = Some(args);
                event = JjEvent::JjOutput(output);
            }
            JjAction::Render(st) => {
                assert!(placed.is_none());
                placed = Some(st);
                event = JjEvent::Rendered(rendered);
            }
            JjAction::Done(shown) => return (placed, shown, ran),
        }
    }
}

/// As `drive`, with a format string that parses; gives back the values
/// placed where a segment is shown.
fn run(config: &JjStatusConfig, repo_found: bool, output: Option<&str>) -> (Option<JjStatus>, Option<Vec<&'static str>>) {
    let (placed, shown, ran) = drive(config, repo_found, output, Some("segment"));
    match shown {
        Some(seg) => {
            assert_eq!(seg, "segment");
            assert!(placed.is_some());
            (placed, ran)
        }
        None => (None, ran),
    }
}

#[test]
fn test_jj_nothing_on_empty_dir() {
    let config = JjStatusConfig::default();
    let (shown, ran) = run(&config, false, None);
    assert!(shown.is_none());
    assert!(ran.is_none());
}

#[test]
fn test_jj_disabled_per_default() {
    let mut config = JjStatusConfig::default();
    config.truncation_length = 14;
    let out = mock_jj_output(TEST_CHANGE_ID, "main", false, false, false);
    let (shown, ran) = run(&config, true, Some(&out));
    assert!(shown.is_none());
    assert!(ran.is_none());
}

#[test]
fn test_jj_no_repo() {
    let config = enabled();
    let (shown, ran) = run(&config, false, None);
    assert!(shown.is_none());
    assert!(ran.is_none());
}

#[test]
fn test_jj_status_simple() {
    let config = enabled();
    let out = mock_jj_output(TEST_CHANGE_ID, "main", false, false, false);
    let (shown, ran) = run(&config, true, Some(&out));
    assert_eq!(ran, Some(jj_cmd(true)));
    let st = shown.unwrap();
    assert_eq!(st.symbol, "jj ");
    assert_eq!(st.style, "bold purple");
    assert_eq!(st.change_id, "kxmynpvq…");
    assert_eq!(st.bookmarks.as_deref(), Some("main"));
    assert_eq!(st.conflicted, None);
    assert_eq!(st.divergent, None);
    assert_eq!(st.hidden, None);
}

#[test]
fn test_jj_status_no_bookmarks() {
    let config = enabled();
    let out = mock_jj_output(TEST_CHANGE_ID, "", false, false, false);
    let st = run(&config, true, Some(&out)).0.unwrap();
    assert_eq!(st.change_id, "kxmynpvq…");
    assert_eq!(st.bookmarks, None);
    assert_eq!(st.variable("bookmarks"), None);
    assert_eq!(st.conflicted, None);
    assert_eq!(st.divergent, None);
    assert_eq!(st.hidden, None);
}

#[test]
fn test_jj_status_conflicted() {
    let config = enabled();
    let out = mock_jj_output(TEST_CHANGE_ID, "", true, false, false);
    let st = run(&config, true, Some(&out)).0.unwrap();
    assert_eq!(st.change_id, "kxmynpvq…");
    assert_eq!(st.conflicted.as_deref(), Some("×"));
    assert_eq!(st.divergent, None);
    assert_eq!(st.hidden, None);
}

#[test]
fn test_jj_status_divergent() {
    let config = enabled();
    let out = mock_jj_output(TEST_CHANGE_ID, "", false, true, false);
    let st = run(&config, true, Some(&out)).0.unwrap();
    assert_eq!(st.change_id, "kxmynpvq…");
    assert_eq!(st.bookmarks, None);
    assert_eq!(st.divergent.as_deref(), Some("?"));
    assert_eq!(st.conflicted, None);
    assert_eq!(st.hidden, None);
}

#[test]
fn test_jj_ignore_working_copy_disabled() {
    let mut config = enabled();
    config.ignore_working_copy = false;
    let out = mock_jj_output(TEST_CHANGE_ID, "main", false, false, false);
    let (shown, ran) = run(&config, true, Some(&out));
    assert_eq!(ran, Some(jj_cmd(false)));
    let st = shown.unwrap();
    assert_eq!(st.change_id, "kxmynpvq…");
    assert_eq!(st.bookmarks.as_deref(), Some("main"));
}

#[test]
fn test_jj_configured() {
    let mut config = enabled();
    config.style = "underline blue";
    config.symbol = "J ";
    config.truncation_length = 4;
    config.truncation_symbol = "%";
    let out = mock_jj_output(TEST_CHANGE_ID, "main", false, false, false);
    let st = run(&config, true, Some(&out)).0.unwrap();
    assert_eq!(st.style, "underline blue");
    assert_eq!(st.symbol, "J ");
    assert_eq!(st.change_id, "kxmy%");
    assert_eq!(st.bookmarks.as_deref(), Some("main"));
}

#[test]
fn test_jj_multiple_bookmarks() {
    let config = enabled();
    let out = mock_jj_output(TEST_CHANGE_ID, "main feature", false, false, false);
    let st = run(&config, true, Some(&out)).0.unwrap();
    assert_eq!(st.change_id, "kxmynpvq…");
    assert_eq!(st.bookmarks.as_deref(), Some("main feature"));
}

#[test]
fn test_jj_status_hidden() {
    let config = enabled();
    let out = mock_jj_output(TEST_CHANGE_ID, "", false, false, true);
    let st = run(&config, true, Some(&out)).0.unwrap();
    assert_eq!(st.change_id, "kxmynpvq…");
    assert_eq!(st.bookmarks, None);
    assert_eq!(st.hidden.as_deref(), Some("◌"));
    assert_eq!(st.conflicted, None);
    assert_eq!(st.divergent, None);
}

#[test]
fn test_jj_status_combined_flags() {
    let config = enabled();
    let out = mock_jj_output(TEST_CHANGE_ID, "main", true, true, false);
    let st = run(&config, true, Some(&out)).0.unwrap();
    assert_eq!(st.change_id, "kxmynpvq…");
    assert_eq!(st.bookmarks.as_deref(), Some("main"));
    assert_eq!(st.conflicted.as_deref(), Some("×"));
    assert_eq!(st.divergent.as_deref(), Some("?"));
    assert_eq!(st.hidden, None);
}

#[test]
fn test_jj_default_truncation_symbol() {
    let mut config = enabled();
    config.truncation_length = 4;
    let out = mock_jj_output("kxmynpvqwlsz", "", false, false, false);
    let st = run(&config, true, Some(&out)).0.unwrap();
    assert_eq!(st.change_id, "kxmy…");
}

#[test]
fn test_jj_truncation_length_zero_uses_max() {
    let mut config = enabled();
    config.truncation_length = 0;
    let long_id = "kxmynpvqwlszabcdefgh";
    let out = mock_jj_output(long_id, "", false, false, false);
    let st = run(&config, true, Some(&out)).0.unwrap();
    assert_eq!(st.change_id, long_id);
}

#[test]
fn test_jj_truncation_length_negative_uses_max() {
    let mut config = enabled();
    config.truncation_length = -1;
    let long_id = "kxmynpvqwlszabcdefgh";
    let out = mock_jj_output(long_id, "", false, false, false);
    let st = run(&config, true, Some(&out)).0.unwrap();
    assert_eq!(st.change_id, long_id);
}

#[test]
fn test_jj_command_failure() {
    let config = enabled();
    let (shown, ran) = run(&config, true, None);
    assert_eq!(ran, Some(jj_cmd(true)));
    assert!(shown.is_none());
}

#[test]
fn test_jj_malformed_output() {
    let config = enabled();
    let (shown, ran) = run(&config, true, Some(""));
    assert_eq!(ran, Some(jj_cmd(true)));
    assert!(shown.is_none());
}

// Further cases of the library's own.

#[test]
fn default_config_values() {
    let c = JjStatusConfig::default();
    assert_eq!(c.symbol, "jj ");
    assert_eq!(c.style, "bold purple");
    assert_eq!(
        c.format,
        "[$symbol$change_id]($style)( [$bookmarks]($style))([ $conflicted$divergent$hidden]($style)) "
    );
    assert_eq!(c.truncation_length, 8);
    assert_eq!(c.truncation_symbol, "…");
    assert_eq!(c.conflicted, "×");
    assert_eq!(c.divergent, "?");
    assert_eq!(c.hidden, "◌");
    assert!(c.ignore_working_copy);
    assert!(c.disabled);
}

#[test]
fn lines_match_std_lines() {
    for s in ["", "a", "a\n", "a\nb", "a\r\nb\r\n", "\n\n", "x\r", "x\ry\n", "\r\n", "a\n\nb", "é\nü\r\n"] {
        let expected: Vec<&str> = s.lines().collect();
        assert_eq!(split_lines(s), expected, "input {:?}", s);
    }
}

#[test]
fn parse_jj_bool_only_true_is_set() {
    assert!(parse_jj_bool(Some("true"), "conflict"));
    assert!(!parse_jj_bool(Some("false"), "conflict"));
    assert!(!parse_jj_bool(Some("True"), "conflict"));
    assert!(!parse_jj_bool(Some(""), "conflict"));
    assert!(!parse_jj_bool(None, "conflict"));
}

#[test]
fn get_jj_info_reads_fields() {
    let info = get_jj_info("abc\r\nmain dev\r\ntrue\r\nfalse\r\ntrue\r\n").unwrap();
    assert_eq!(info.change_id, "abc");
    assert_eq!(info.bookmarks, "main dev");
    assert!(info.conflicted);
    assert!(!info.divergent);
    assert!(info.hidden);
}

#[test]
fn get_jj_info_missing_lines() {
    let info = get_jj_info("abc").unwrap();
    assert_eq!(info.change_id, "abc");
    assert_eq!(info.bookmarks, "");
    assert!(!info.conflicted && !info.divergent && !info.hidden);
    let info = get_jj_info("abc\nmain\nyes").unwrap();
    assert!(!info.conflicted);
}

#[test]
fn get_jj_info_empty_change_id() {
    assert!(get_jj_info("").is_none());
    assert!(get_jj_info("\nmain\ntrue\ntrue\ntrue").is_none());
    assert!(get_jj_info("\r\nmain").is_none());
}

#[test]
fn template_output_reads_back() {
    let out = mock_jj_output("zzzz", "a b", true, false, true);
    let info = get_jj_info(&out).unwrap();
    assert_eq!(info.change_id, "zzzz");
    assert_eq!(info.bookmarks, "a b");
    assert!(info.conflicted && !info.divergent && info.hidden);
}

#[test]
fn log_args() {
    let mut c = enabled();
    assert_eq!(jj_log_args(&c), jj_cmd(true));
    c.ignore_working_copy = false;
    assert_eq!(jj_log_args(&c), vec!["log", "--no-graph", "-r", "@", "-T", JJ_TEMPLATE]);
    assert!(JJ_TEMPLATE.starts_with("change_id ++ \"\\n\""));
}

#[test]
fn truncation_lengths() {
    assert_eq!(truncation_len(0), usize::MAX);
    assert_eq!(truncation_len(-5), usize::MAX);
    assert_eq!(truncation_len(8), 8);
}

#[test]
fn truncate_text_by_grapheme() {
    assert_eq!(truncate_text("abcdef", 3, "…"), "abc…");
    assert_eq!(truncate_text("abc", 3, "…"), "abc");
    assert_eq!(truncate_text("abc", 10, "…"), "abc");
    assert_eq!(truncate_text("abc", 0, "…"), "…");
    // Only the first grapheme cluster of the symbol is used.
    assert_eq!(truncate_text("abcdef", 2, "->"), "ab-");
    assert_eq!(truncate_text("abcdef", 2, ""), "ab");
    // A letter with a combining accent is one cluster.
    assert_eq!(truncate_text("e\u{301}xyz", 1, "."), "e\u{301}.");
    assert_eq!(truncate_text("e\u{301}x", 2, "."), "e\u{301}x");
    // "\r\n" is one cluster.
    assert_eq!(truncate_text("\r\nab", 1, "."), "\r\n.");
    assert_eq!(truncate_text("abc", usize::MAX, "."), "abc");
}

#[test]
fn status_from_info() {
    let mut config = enabled();
    config.truncation_length = 3;
    config.truncation_symbol = "~";
    let info = JjInfo {
        change_id: "abcdef".to_string(),
        bookmarks: "".to_string(),
        conflicted: false,
        divergent: true,
        hidden: true,
    };
    let st = jj_status(&config, info);
    assert_eq!(st.change_id, "abc~");
    assert_eq!(st.bookmarks, None);
    assert_eq!(st.conflicted, None);
    assert_eq!(st.divergent.as_deref(), Some("?"));
    assert_eq!(st.hidden.as_deref(), Some("◌"));
    assert_eq!(st.format, config.format);
}

#[test]
fn variables_by_name() {
    let config = enabled();
    let out = mock_jj_output(TEST_CHANGE_ID, "main", true, false, false);
    let st = run(&config, true, Some(&out)).0.unwrap();
    assert_eq!(st.variable("change_id"), Some("kxmynpvq…"));
    assert_eq!(st.variable("bookmarks"), Some("main"));
    assert_eq!(st.variable("conflicted"), Some("×"));
    assert_eq!(st.variable("divergent"), None);
    assert_eq!(st.variable("hidden"), None);
    assert_eq!(st.variable("symbol"), None);
    assert_eq!(st.meta_variable("symbol"), Some("jj "));
    assert_eq!(st.meta_variable("style"), None);
    assert_eq!(st.style_variable("style"), Some("bold purple"));
    assert_eq!(st.style_variable("symbol"), None);
}

#[test]
fn disabled_config_stops_at_every_step() {
    let config = JjStatusConfig::default();
    for event in [
        JjEvent::Start,
        JjEvent::RepoFound(true),
        JjEvent::JjOutput(Some("abc")),
        JjEvent::JjOutput(None),
        JjEvent::Rendered(Some("abc")),
    ] {
        assert!(matches!(module(&config, event), JjAction::Done(None)));
    }
}

#[test]
fn format_that_does_not_parse_shows_nothing() {
    let config = enabled();
    let out = mock_jj_output(TEST_CHANGE_ID, "main", false, false, false);
    let (placed, shown, ran) = drive(&config, true, Some(&out), None);
    assert_eq!(ran, Some(jj_cmd(true)));
    assert_eq!(placed.unwrap().change_id, "kxmynpvq…");
    assert!(shown.is_none());
    assert!(matches!(module(&config, JjEvent::Rendered(None)), JjAction::Done(None)));
}

#[test]
fn rendered_segment_is_shown() {
    let config = enabled();
    let out = mock_jj_output(TEST_CHANGE_ID, "", false, false, false);
    let (_, shown, _) = drive(&config, true, Some(&out), Some("jj kxmynpvq… "));
    assert_eq!(shown.as_deref(), Some("jj kxmynpvq… "));
}
