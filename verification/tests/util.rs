use strumbot::util::{clean_link_title, sanitize_link_title, Timestamp};

#[test]
fn test_sanitize_markdown() {
    assert_eq!(
        sanitize_link_title("simple | text - with $ special & chars %"),
        "simple | text - with $ special & chars %"
    );
    assert_eq!(
        sanitize_link_title("hello world https://example.com"),
        "hello world example.com"
    );
    assert_eq!(
        sanitize_link_title("https://example.com hello world"),
        "example.com hello world"
    );
    assert_eq!(sanitize_link_title("~~hello world~~"), "hello world");
    assert_eq!(sanitize_link_title("*hello world*"), "hello world");
    assert_eq!(sanitize_link_title("hello ||world||"), "hello world");

    assert_eq!(
        sanitize_link_title("MORE LIKE SPLIT-LATE!!!! ðŸ˜‚ðŸ˜‚ðŸ˜‚"),
        "MORE LIKE SPLIT-LATE!!!!"
    )
}

#[test]
fn sanitize_drops_emoji_and_keeps_other_text() {
    assert_eq!(sanitize_link_title("caf\u{e9} \u{1F602} ok"), "caf\u{e9}  ok");
    assert_eq!(sanitize_link_title("\u{65e5}\u{672c}\u{8a9e} \u{1F1E9}\u{1F1EA}"), "\u{65e5}\u{672c}\u{8a9e}");
    assert_eq!(sanitize_link_title("\u{2764}\u{fe0f} 1\u{fe0f}\u{20e3} go"), "1 go");
    assert_eq!(sanitize_link_title("\u{1F468}\u{200d}\u{1F469}\u{200d}\u{1F467}"), "");
    assert_eq!(sanitize_link_title("   "), "");
    assert_eq!(sanitize_link_title(""), "");
}

#[test]
fn misread_emoji_are_dropped_whole() {
    // the bytes F0 9F 98 82 read as Windows-1252
    assert_eq!(clean_link_title("a \u{f0}\u{178}\u{2dc}\u{201a} b"), "a  b");
    assert_eq!(clean_link_title("\u{f0}\u{178}\u{a4}\u{2013}x"), "x");
    // the same letters elsewhere are text
    assert_eq!(clean_link_title("\u{de}\u{f3}r\u{f0}ur"), "\u{de}\u{f3}r\u{f0}ur");
    assert_eq!(clean_link_title("\u{f0}\u{178}"), "\u{f0}\u{178}");
    assert_eq!(clean_link_title("\u{f0}\u{178}\u{2dc}"), "\u{f0}\u{178}\u{2dc}");
    assert_eq!(clean_link_title("\u{f0}\u{178}ab"), "\u{f0}\u{178}ab");
    assert_eq!(clean_link_title("\u{178}\u{f0}\u{2dc}\u{201a}"), "\u{178}\u{f0}\u{2dc}\u{201a}");
}

#[test]
fn clean_title_trims_white_space_only_at_the_ends() {
    assert_eq!(clean_link_title("\t a  b \n"), "a  b");
    assert_eq!(clean_link_title("\u{b}x\u{c}\r"), "x");
    assert_eq!(clean_link_title("\u{a0}x\u{3000}\u{2003}"), "x");
    assert_eq!(clean_link_title("\u{200b}x"), "\u{200b}x");
    assert_eq!(clean_link_title("_a_"), "_a_");
}

#[test]
fn sanitize_replaces_markup_by_the_crate() {
    // would fail if the replacement handed the text back unchanged
    assert_eq!(sanitize_link_title("a__b"), "a b");
    assert_eq!(sanitize_link_title("see ftp://host"), "see host");
}

#[test]
fn timestamp_adds_seconds() {
    let t = Timestamp::new(100);
    assert_eq!(t.secs(), 100);
    assert_eq!(t.add(20).secs(), 120);
    assert!(t.add(1).is_after(&t));
    assert!(!t.is_after(&t));
    assert_eq!(t, Timestamp(100));
}
