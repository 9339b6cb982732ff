use hotserve::paths::extension_of_path;
use hotserve::paths::fallback_candidate;
use hotserve::paths::first_candidate;
use hotserve::respond::build_body;
use hotserve::respond::handle_request;
use hotserve::respond::mime_for_extension;
use hotserve::respond::resolve;
use hotserve::respond::respond;
use hotserve::respond::RELOAD_SNIPPET;
use hotserve::utf8check::is_utf8;
use hotserve::VersionCounter;

#[test]
fn counter_starts_at_zero() {
    let c = VersionCounter::new();
    assert_eq!(c.current(), 0);
}

#[test]
fn counter_counts_events() {
    let mut c = VersionCounter::new();
    for _ in 0..5 {
        c.bump();
    }
    assert_eq!(c.current(), 5);
}

#[test]
fn counter_wraps_at_two_to_the_sixteen() {
    let mut c = VersionCounter::new();
    for _ in 0..65535 {
        c.bump();
    }
    assert_eq!(c.current(), 65535);
    c.bump();
    assert_eq!(c.current(), 0);
    c.bump();
    assert_eq!(c.current(), 1);
}

#[test]
fn first_candidate_of_root_is_index() {
    assert_eq!(first_candidate(""), "index.html");
    assert_eq!(first_candidate("style.css"), "style.css");
    assert_eq!(first_candidate("sub/page.html"), "sub/page.html");
}

#[test]
fn fallback_candidate_appends_index() {
    assert_eq!(fallback_candidate(""), "index.html");
    assert_eq!(fallback_candidate("sub"), "sub/index.html");
    assert_eq!(fallback_candidate("a/b"), "a/b/index.html");
}

#[test]
fn extension_is_after_last_dot_of_last_segment() {
    assert_eq!(extension_of_path("index.html"), "html");
    assert_eq!(extension_of_path("foo.tar.gz"), "gz");
    assert_eq!(extension_of_path("foo"), "");
    assert_eq!(extension_of_path(""), "");
    assert_eq!(extension_of_path("dir.d/file"), "");
    assert_eq!(extension_of_path("dir/file."), "");
    assert_eq!(extension_of_path("sub/index.html"), "html");
}

#[test]
fn utf8_check_agrees_with_std() {
    let cases: Vec<Vec<u8>> = vec![
        b"".to_vec(),
        b"hello".to_vec(),
        "caf\u{e9} \u{4e16}\u{754c} \u{1f600}".as_bytes().to_vec(),
        vec![0xff],
        vec![0xc0, 0x80],
        vec![0xc1, 0xbf],
        vec![0xc2],
        vec![0xc2, 0x80],
        vec![0xe0, 0x80, 0x80],
        vec![0xe0, 0xa0, 0x80],
        vec![0xed, 0x9f, 0xbf],
        vec![0xed, 0xa0, 0x80],
        vec![0xf0, 0x80, 0x80, 0x80],
        vec![0xf0, 0x90, 0x80, 0x80],
        vec![0xf4, 0x8f, 0xbf, 0xbf],
        vec![0xf4, 0x90, 0x80, 0x80],
        vec![0xf5, 0x80, 0x80, 0x80],
        vec![0xf8, 0x80],
        vec![0x80],
        vec![0xe2, 0x82],
        vec![0x41, 0xe2, 0x82, 0xac, 0x42],
        vec![0x41, 0xe2, 0x82, 0x41],
    ];
    for bytes in cases {
        assert_eq!(
            is_utf8(&bytes),
            std::str::from_utf8(&bytes).is_ok(),
            "disagreement on {:?}",
            bytes
        );
    }
}

#[test]
fn snippet_only_for_html() {
    let binary = vec![0u8, 159, 146, 150];
    let served = build_body(binary.clone(), "png");
    assert_eq!(served, binary);

    let css = b"body{}".to_vec();
    let served = build_body(css.clone(), "css");
    assert_eq!(served, css);
}

#[test]
fn snippet_is_a_suffix_of_html() {
    let html = b"<h1>Hi</h1>".to_vec();
    let served = build_body(html.clone(), "html");
    let mut expected = html.clone();
    expected.extend_from_slice(RELOAD_SNIPPET.as_bytes());
    assert_eq!(served, expected);
}

#[test]
fn invalid_utf8_html_is_served_unchanged() {
    let broken = vec![b'<', b'p', b'>', 0xff, 0xfe];
    let served = build_body(broken.clone(), "html");
    assert_eq!(served, broken);
}

#[test]
fn serving_is_idempotent() {
    let html = b"<h1>Hi</h1>".to_vec();
    let a = build_body(html.clone(), "html");
    let b = build_body(html.clone(), "html");
    assert_eq!(a, b);
    let png = vec![1u8, 2, 3];
    let a = build_body(png.clone(), "png");
    let b = build_body(png.clone(), "png");
    assert_eq!(a, b);
}

#[test]
fn mime_lookup_table() {
    assert_eq!(mime_for_extension("html"), Some("text/html".to_string()));
    assert_eq!(mime_for_extension("css"), Some("text/css".to_string()));
    assert_eq!(
        mime_for_extension("js"),
        Some("application/javascript".to_string())
    );
    assert_eq!(mime_for_extension("json"), Some("application/json".to_string()));
    assert_eq!(mime_for_extension("svg"), Some("image/svg+xml".to_string()));
    assert_eq!(mime_for_extension("xml"), Some("application/xml".to_string()));
    assert_eq!(mime_for_extension("png"), Some("image/png".to_string()));
    assert_eq!(mime_for_extension("bin"), None);
    assert_eq!(mime_for_extension(""), None);
    assert_eq!(mime_for_extension("HTML"), None);
}

#[test]
fn resolver_prefers_the_first_read() {
    let r = resolve("style.css", Some(b"body{}".to_vec()), None);
    assert_eq!(r.status, 200);
    assert_eq!(r.bytes, Some(b"body{}".to_vec()));
    assert_eq!(r.extension, "css");
}

#[test]
fn resolver_falls_back_to_index() {
    let r = resolve("sub", None, Some(b"X".to_vec()));
    assert_eq!(r.status, 200);
    assert_eq!(r.bytes, Some(b"X".to_vec()));
    assert_eq!(r.extension, "html");
}

#[test]
fn resolver_misses_with_404() {
    let r = resolve("missing.js", None, None);
    assert_eq!(r.status, 404);
    assert_eq!(r.bytes, None);
}

#[test]
fn root_request_serves_index_with_snippet() {
    let p = handle_request("", Some(b"<h1>Hi</h1>".to_vec()), None);
    assert_eq!(p.status, 200);
    let mut expected = b"<h1>Hi</h1>".to_vec();
    expected.extend_from_slice(RELOAD_SNIPPET.as_bytes());
    assert_eq!(p.body, expected);
    assert_eq!(p.content_type, Some("text/html".to_string()));
}

#[test]
fn css_is_served_exactly() {
    let p = handle_request("style.css", Some(b"body{}".to_vec()), None);
    assert_eq!(p.status, 200);
    assert_eq!(p.body, b"body{}".to_vec());
    assert_eq!(p.content_type, Some("text/css".to_string()));
}

#[test]
fn missing_file_is_an_empty_404() {
    let p = handle_request("missing.js", None, None);
    assert_eq!(p.status, 404);
    assert!(p.body.is_empty());
    assert_eq!(p.content_type, None);
}

#[test]
fn directory_request_serves_fallback_index_with_snippet() {
    let p = handle_request("sub", None, Some(b"X".to_vec()));
    assert_eq!(p.status, 200);
    let mut expected = b"X".to_vec();
    expected.extend_from_slice(RELOAD_SNIPPET.as_bytes());
    assert_eq!(p.body, expected);
    assert_eq!(p.content_type, Some("text/html".to_string()));
}

#[test]
fn binary_image_is_served_byte_for_byte() {
    let image: Vec<u8> = vec![0x89, b'P', b'N', b'G', 0x0d, 0x0a, 0x1a, 0x0a, 0xff, 0x00];
    let p = handle_request("image.png", Some(image.clone()), None);
    assert_eq!(p.status, 200);
    assert_eq!(p.body, image);
    assert_eq!(p.content_type, Some("image/png".to_string()));
}

#[test]
fn respond_maps_miss_to_empty_body() {
    let r = resolve("gone", None, None);
    let p = respond(r);
    assert_eq!(p.status, 404);
    assert!(p.body.is_empty());
    assert_eq!(p.content_type, None);
}

#[test]
fn snippet_polls_hot_and_reloads() {
    assert!(RELOAD_SNIPPET.contains("/hot"));
    assert!(RELOAD_SNIPPET.contains("location.reload()"));
    assert!(RELOAD_SNIPPET.contains("setInterval"));
    assert!(RELOAD_SNIPPET.contains("catch"));
    assert!(RELOAD_SNIPPET.starts_with("\n<script>"));
    assert!(RELOAD_SNIPPET.ends_with("</script>\n"));
}

#[test]
fn config_defaults_match_the_cli() {
    let c = hotserve::ServerConfig::default();
    assert_eq!(c.source_root, ".");
    assert_eq!(c.bind_port, 8080);
    assert!(!c.open_browser);
}

#[test]
fn config_carries_the_parsed_values() {
    let c = hotserve::ServerConfig::new("site".to_string(), 3000, true);
    assert_eq!(c.source_root, "site");
    assert_eq!(c.bind_port, 3000);
    assert!(c.open_browser);
}

#[test]
fn hot_body_reports_the_counter() {
    let mut c = VersionCounter::new();
    assert_eq!(hotserve::textfmt::hot_body(c.current()), "0");
    c.bump();
    assert_eq!(hotserve::textfmt::hot_body(c.current()), "1");
    c.bump();
    c.bump();
    assert_eq!(hotserve::textfmt::hot_body(c.current()), "3");
}

#[test]
fn utf8_check_agrees_with_std_on_all_short_inputs() {
    for b0 in 0..=255u8 {
        let v = vec![b0];
        assert_eq!(is_utf8(&v), std::str::from_utf8(&v).is_ok(), "one byte {:?}", v);
    }
    for b0 in 0..=255u8 {
        for b1 in 0..=255u8 {
            let v = vec![b0, b1];
            assert_eq!(is_utf8(&v), std::str::from_utf8(&v).is_ok(), "two bytes {:?}", v);
        }
    }
}

#[test]
fn utf8_check_agrees_with_std_on_sampled_sequences() {
    let interesting: [u8; 20] = [
        0x00, 0x41, 0x7f, 0x80, 0x8f, 0x90, 0x9f, 0xa0, 0xbf, 0xc0, 0xc1, 0xc2, 0xdf, 0xe0,
        0xed, 0xef, 0xf0, 0xf4, 0xf5, 0xff,
    ];
    let mut state: u64 = 0x243f6a8885a308d3;
    let mut next = move || {
        state = state
            .wrapping_mul(6364136223846793005)
            .wrapping_add(1442695040888963407);
        (state >> 33) as u32
    };
    for _ in 0..20000 {
        let len = (next() % 7) as usize;
        let mut v = Vec::with_capacity(len);
        for _ in 0..len {
            let r = next();
            if r % 2 == 0 {
                v.push(interesting[(r / 2) as usize % interesting.len()]);
            } else {
                v.push((r / 2) as u8);
            }
        }
        assert_eq!(
            is_utf8(&v),
            std::str::from_utf8(&v).is_ok(),
            "disagreement on {:?}",
            v
        );
    }
}
