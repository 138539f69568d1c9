use memory_session::filter::{
    format_injection, injection_from_clean_output, injection_from_run, is_empty_or_noise,
    is_empty_or_noise_folded, search_args, search_query, strip_ansi, trim_swarm_output,
};

#[test]
fn banner_lines_and_help_section_are_dropped() {
    let out = "Vector search...\nRelevant Memories\nitem A\nitem B\nCommands: help";
    assert_eq!(
        injection_from_run(true, out),
        Some("Memories which may be helpful:\nitem A\nitem B".to_string())
    );
}

#[test]
fn no_matches_output_gives_no_injection() {
    assert_eq!(injection_from_run(true, "No matches found"), None);
}

#[test]
fn failed_run_gives_no_injection() {
    assert_eq!(injection_from_run(false, "item A\nitem B"), None);
}

#[test]
fn escape_codes_are_removed_before_filtering() {
    let out = "\x1b[1;32mRelevant Memories\x1b[0m\n\x1b[33mitem A\x1b[0m\n";
    assert_eq!(
        injection_from_run(true, out),
        Some("Memories which may be helpful:\nitem A".to_string())
    );
}

#[test]
fn strip_ansi_removes_color_codes() {
    assert_eq!(strip_ansi("\x1b[31mred\x1b[0m plain"), "red plain");
    assert_eq!(strip_ansi("no codes"), "no codes");
    assert_eq!(strip_ansi("\x1b[31mitem A\x1b[0m"), "item A");
    assert_eq!(strip_ansi("a\x1b[mb"), "ab");
    assert_eq!(strip_ansi("a\x1b[31xb"), "a\x1b[31xb");
    assert_eq!(strip_ansi("\x1b[1;2\x1b[0mz"), "\x1b[1;2z");
}

#[test]
fn commands_line_ends_the_snippet() {
    assert_eq!(trim_swarm_output("a\nCommands: x\nb\nc"), "a");
    assert_eq!(trim_swarm_output("Commands:\nb"), "");
}

#[test]
fn lines_are_trimmed_and_empty_ones_dropped() {
    assert_eq!(
        trim_swarm_output("  first  \n\n   \n\tsecond\r\nShowing 5 results\nthird"),
        "first\nsecond\nthird"
    );
    assert_eq!(trim_swarm_output(""), "");
}

#[test]
fn banner_prefixes_must_start_the_line() {
    assert_eq!(trim_swarm_output(" Showing all\nShowingoff"), "Showing all\nShowingoff");
}

#[test]
fn noise_markers_in_any_case() {
    assert!(is_empty_or_noise("   \n\t"));
    assert!(is_empty_or_noise(""));
    assert!(is_empty_or_noise("Found NO RESULTS here"));
    assert!(is_empty_or_noise("No Matches"));
    assert!(is_empty_or_noise("0 Records returned"));
    assert!(!is_empty_or_noise("item A"));
    assert!(is_empty_or_noise("10 records"));
    assert!(!is_empty_or_noise("12 records"));
}

#[test]
fn noise_check_on_folded_text() {
    assert!(is_empty_or_noise_folded("No Results", "no results"));
    assert!(!is_empty_or_noise_folded("No Results", "No Results"));
    assert!(is_empty_or_noise_folded("  ", "anything"));
}

#[test]
fn noise_in_clean_output_gives_none() {
    assert_eq!(injection_from_clean_output("item\n0 records"), None);
    assert_eq!(injection_from_clean_output("Vector search\n   \n"), None);
}

#[test]
fn short_snippet_is_injected_whole() {
    assert_eq!(format_injection("abc"), "Memories which may be helpful:\nabc");
}

#[test]
fn long_snippet_is_clipped_to_1200_chars() {
    let snippet: String = "x".repeat(1500);
    let r = format_injection(&snippet);
    let body = r.strip_prefix("Memories which may be helpful:\n").unwrap();
    assert_eq!(body.chars().count(), 1203);
    assert_eq!(body, format!("{}...", "x".repeat(1200)));
}

#[test]
fn snippet_of_exactly_1200_chars_is_not_clipped() {
    let snippet: String = "y".repeat(1200);
    let r = format_injection(&snippet);
    assert_eq!(r, format!("Memories which may be helpful:\n{}", snippet));
}

#[test]
fn clipping_counts_characters_not_bytes() {
    let snippet: String = "é".repeat(1300);
    let r = format_injection(&snippet);
    let body = r.strip_prefix("Memories which may be helpful:\n").unwrap();
    assert_eq!(body, format!("{}...", "é".repeat(1200)));
}

#[test]
fn long_output_through_run_is_clipped() {
    let out = format!("{}\nCommands: q", "z".repeat(2000));
    let r = injection_from_run(true, &out).unwrap();
    assert_eq!(r, format!("Memories which may be helpful:\n{}...", "z".repeat(1200)));
}

#[test]
fn blank_queries_are_not_searched() {
    assert_eq!(search_query(""), None);
    assert_eq!(search_query("   \t\n"), None);
    assert_eq!(search_query("  find the bug "), Some("find the bug".to_string()));
}

#[test]
fn tool_arguments() {
    assert_eq!(
        search_args("find the bug"),
        vec!["-c", "-v", "find the bug", "--limit", "5"]
    );
}

#[test]
fn unicode_whitespace_is_trimmed() {
    assert_eq!(trim_swarm_output("\u{3000}item\u{a0}\n\u{2003}"), "item");
    assert_eq!(search_query("\u{85}\u{2028}"), None);
}
