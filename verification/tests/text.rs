use tiny_dfr::html::decode_html_entities;
use tiny_dfr::json;
use tiny_dfr::order;
use tiny_dfr::paths;
use tiny_dfr::scan;
use tiny_dfr::text;
use tiny_dfr::titles;

#[test]
fn browser_decodes_html_entities_in_tab_titles() {
    assert_eq!(decode_html_entities("They&#39re here"), "They're here");
    assert_eq!(decode_html_entities("They&#39;re here"), "They're here");
    assert_eq!(
        decode_html_entities("They&#x27;re &amp; gone"),
        "They're & gone"
    );
    assert_eq!(
        decode_html_entities("&quot;Hi&quot; &lt;tag&gt;"),
        "\"Hi\" <tag>"
    );
}

#[test]
fn chromium_decodes_html_entities_in_tab_titles() {
    assert_eq!(decode_html_entities("They&#39re here"), "They're here");
    assert_eq!(decode_html_entities("They&#39;re here"), "They're here");
    assert_eq!(
        decode_html_entities("They&#x27;re &amp; gone"),
        "They're & gone"
    );
    assert_eq!(
        decode_html_entities("&quot;Hi&quot; &lt;tag&gt;"),
        "\"Hi\" <tag>"
    );
}

#[test]
fn odd_entities_are_left_alone() {
    assert_eq!(decode_html_entities(""), "");
    assert_eq!(decode_html_entities("a & b"), "a & b");
    assert_eq!(decode_html_entities("&"), "&");
    assert_eq!(decode_html_entities("&#"), "&#");
    assert_eq!(decode_html_entities("&#;"), "&#;");
    assert_eq!(decode_html_entities("&#x;"), "&#x;");
    assert_eq!(decode_html_entities("&nope;"), "&nope;");
    assert_eq!(decode_html_entities("&#xD800;"), "&#xD800;");
    assert_eq!(decode_html_entities("&#99999999999;"), "&#99999999999;");
    assert_eq!(decode_html_entities("&amp"), "&");
    assert_eq!(decode_html_entities("&amp;lt;"), "&lt;");
    assert_eq!(decode_html_entities("&apos;&#X41;"), "'A");
    assert_eq!(decode_html_entities("&#128512;"), "\u{1F600}");
}

#[test]
fn texts_are_cut_and_joined() {
    assert_eq!(scan::split("a.b..c", '.'), vec!["a", "b", "", "c"]);
    assert_eq!(scan::split("", '.'), vec![""]);
    assert_eq!(scan::split_whitespace("  a\tb \n c "), vec!["a", "b", "c"]);
    assert_eq!(scan::trim("\u{a0} x y\u{3000}"), "x y");
    assert_eq!(scan::trim_start("  x "), "x ");
    assert_eq!(scan::trim_end_matches("a///", "/"), "a");
    assert_eq!(scan::after_last("a/b/c", '/'), "c");
    assert_eq!(scan::after_last_of("1 (a) b) S 7", ") ").unwrap(), "S 7");
    assert_eq!(scan::after_last_of("none", ") "), None);
    assert_eq!(
        scan::split_once("a,b,c", ',').unwrap(),
        ("a".to_string(), "b,c".to_string())
    );
    assert!(scan::split_once("abc", ',').is_none());
    assert!(scan::contains("haystack", "st"));
    assert!(scan::contains("x", ""));
    assert!(!scan::contains("x", "xy"));
    assert!(scan::starts_with("event7", "event"));
    assert!(scan::ends_with("/bin/nvim", "/nvim"));
    assert_eq!(scan::strip_prefix("file:///x", "file://").unwrap(), "/x");
    for s in ["", "a", "a\n", "a\nb", "a\r\nb\r\n", "\n\n", "a\rb\r", "a\n\r", "\r\n"] {
        let lines: Vec<&str> = s.lines().collect();
        assert_eq!(scan::lines(s), lines, "{s:?}");
    }
}

#[test]
fn numbers_are_read_and_written() {
    for s in ["0", "7", "+7", "4294967295", "4294967296", "", "+", "-1", "1a", " 1", "007"] {
        assert_eq!(text::parse_u32(s), s.parse::<u32>().ok(), "{s:?}");
    }
    assert_eq!(text::to_decimal(0), "0");
    assert_eq!(text::to_decimal(u64::MAX), "18446744073709551615");
    assert_eq!(text::to_two_digits(5), "05");
    assert_eq!(text::to_two_digits(123), "123");
    assert_eq!(text::to_lowercase("AbC-Ä"), "abc-Ä");
}

#[test]
fn texts_are_put_in_order() {
    let mut expected = vec!["b", "a|1", "", "Z", "a", "\u{10000}", "\u{ffff}", "a"];
    let list: Vec<String> = expected.iter().map(|s| s.to_string()).collect();
    expected.sort();
    assert_eq!(order::sort(list), expected);
    assert!(order::is_no_later("a", "ab"));
    assert!(!order::is_no_later("b", "ab"));
}

#[test]
fn json_texts_are_quoted_as_serde_quotes_them() {
    for s in [
        "",
        "plain",
        "quote \" backslash \\ slash /",
        "\u{8}\u{c}\n\r\t",
        "\u{0}\u{1}\u{1f}\u{7f}",
        "é \u{1F600} \u{2028}",
    ] {
        assert_eq!(json::quote(s), serde_json::to_string(s).unwrap(), "{s:?}");
    }
    assert_eq!(json::write_bool(true), "true");
    assert_eq!(json::element_pointer("/a", 12, "/b"), "/a/12/b");
}

#[test]
fn paths_lie_in_the_session() {
    assert_eq!(paths::join("/run/user/5", "a/b"), "/run/user/5/a/b");
    assert_eq!(paths::join("/", "a"), "/a");
    assert_eq!(paths::join("", "a"), "a");
    assert_eq!(paths::runtime_dir(Some("/x"), 5), "/x");
    assert_eq!(paths::runtime_dir(None, 1000), "/run/user/1000");
    assert_eq!(
        paths::compositor_socket(Some("/r"), Some("/s")).as_deref(),
        Some("/s/.socket2.sock")
    );
    assert_eq!(paths::join("/r", "/s"), "/s");
    assert!(paths::is_state_file("12.json"));
    assert!(!paths::is_state_file(".json"));
    assert!(!paths::is_state_file("12.json.tmp"));
    assert_eq!(paths::runtime_root(Some("/own"), Some("/x"), None, 1), "/own");
    assert_eq!(paths::runtime_root(None, Some("/x"), None, 1), "/x/tiny-dfr");
    assert_eq!(paths::runtime_root(None, None, Some("me"), 1), "/tmp/tiny-dfr-me");
    assert_eq!(paths::runtime_root(None, None, None, 1), "/tmp/tiny-dfr-1");
    assert_eq!(paths::remote_socket(None, 7), "/run/user/7/tiny-dfr/remote.sock");
    assert_eq!(
        paths::compositor_socket(Some("/x"), Some("sig")).unwrap(),
        "/x/hypr/sig/.socket2.sock"
    );
    assert!(paths::compositor_socket(None, Some("sig")).is_none());
}

#[test]
fn media_titles_are_compared_without_decoration() {
    assert_eq!(titles::normalize_media_title("  (695) Song - YouTube "), "song");
    assert_eq!(titles::normalize_media_title("(abc) Song"), "(abc) song");
    assert_eq!(titles::normalize_media_title("() Song"), "() song");
    assert_eq!(titles::normalize_media_title("Song — YouTube"), "song");
    assert!(titles::titles_probably_match("Song", "(3) My Song - YouTube"));
    assert!(titles::titles_probably_match("(3) My Song - YouTube", "Song"));
    assert!(!titles::titles_probably_match("", "anything"));
    assert!(!titles::titles_probably_match("one", "two"));
    assert!(titles::titles_probably_match("same", "same"));
    assert!(titles::media_is_chromium("org.mpris.MediaPlayer2.Chromium.instance1"));
    assert!(titles::media_is_chromium("Google-Chrome"));
    assert!(!titles::media_is_chromium("vlc"));
}
