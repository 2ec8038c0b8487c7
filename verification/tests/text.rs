use jukebox::text::{
    failure, help, is_link, now_playing, FAILED, HELP, NOT_IN_VOICE, NOW_PLAYING, SOURCE_ERROR,
};

#[test]
fn links_start_with_http() {
    assert!(is_link("http"));
    assert!(is_link("http://example.com"));
    assert!(is_link("https://example.com/watch?v=abc"));
    assert!(is_link("httpfoo"));
}

#[test]
fn anything_else_is_no_link() {
    assert!(!is_link(""));
    assert!(!is_link("h"));
    assert!(!is_link("htt"));
    assert!(!is_link("htp://example.com"));
    assert!(!is_link(" http://example.com"));
    assert!(!is_link("HTTP://example.com"));
    assert!(!is_link("Http://example.com"));
    assert!(!is_link("www.example.com"));
    assert!(!is_link("never gonna give you up"));
}

#[test]
fn link_test_counts_characters_not_bytes() {
    assert!(!is_link("é"));
    assert!(!is_link("éé"));
    assert!(!is_link("héttp"));
    assert!(!is_link("ｈｔｔｐ://example.com"));
    assert!(is_link("http://exämple.com/ü"));
}

#[test]
fn link_test_agrees_with_starts_with() {
    let samples = [
        "", "h", "ht", "htt", "http", "https", "http://a", "xhttp", "ftp://a", "h ttp", "hTtp",
        "日本語", "http日本語", "\u{0}http",
    ];
    for sample in samples {
        assert_eq!(is_link(sample), sample.starts_with("http"), "{:?}", sample);
    }
}

#[test]
fn announcement_names_the_link() {
    assert_eq!(now_playing("https://example.com/a"), "Now playing: https://example.com/a");
    assert_eq!(now_playing(""), "Now playing: ");
}

#[test]
fn failure_report_carries_the_detail() {
    assert_eq!(failure("Dropped"), "Failed: Dropped");
    assert_eq!(failure("NoCall"), "Failed: NoCall");
    assert_eq!(failure(""), "Failed: ");
}

#[test]
fn fixed_texts_read_as_expected() {
    assert_eq!(NOT_IN_VOICE, "Must be in a voice channel to use this feature");
    assert_eq!(SOURCE_ERROR, "Error sourcing file");
    assert_eq!(NOW_PLAYING, "Now playing: ");
    assert_eq!(FAILED, "Failed: ");
}

#[test]
fn help_text_lists_both_commands() {
    let lines: Vec<&str> = HELP.split('\n').collect();
    assert_eq!(
        lines,
        vec![
            "You can use the `--` prefix to use this bot's commands.",
            "",
            "    `--play <youtube URL> OR <youtube search query>`",
            "",
            "    `--leave` when you want the bot to leave.",
            "",
        ]
    );
}

#[test]
fn help_replies_with_the_usage() {
    let expected = "You can use the `--` prefix to use this bot's commands.\n\n    `--play <youtube URL> OR <youtube search query>`\n\n    `--leave` when you want the bot to leave.\n";
    assert_eq!(help(), expected);
    assert_eq!(help(), HELP);
}
