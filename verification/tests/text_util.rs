use replybot::html::strip_html;
use replybot::links::{fit_for_mastodon_plain, normalize_links_to_domains};

#[test]
fn md_link_is_plain_domain() {
    let s = "詳細は[公式ブログ](https://blog.rust-lang.org/2025/11/10/Rust-1.91.1/)参照。";
    let got = normalize_links_to_domains(s);
    assert_eq!(got, "詳細は(blog.rust-lang.org)参照。");
}

#[test]
fn raw_url_is_plain_domain() {
    let s = "URL: https://example.com/path?q=1";
    let got = normalize_links_to_domains(s);
    assert_eq!(got, "URL: (example.com)");
}

#[test]
fn zenkaku_brackets_and_spaces() {
    let s = "（参考） https://sub.example.org/a　b";
    let got = normalize_links_to_domains(s);
    assert_eq!(got, "(参考) (sub.example.org) b");
}

#[test]
fn fit_within_limit_keeps_bullets() {
    let s = "- 1行目\n- 2行目\n- 3行目";
    let got = fit_for_mastodon_plain(s, 12);
    assert!(got.contains("- 1行目"));
    assert!(got.contains("- 2行目"));
    assert!(!got.contains("- 3行目"));
}

#[test]
fn fit_truncates_when_no_newlines() {
    let s = "あいうえおかきくけこさしすせそたちつてと";
    let got = fit_for_mastodon_plain(s, 10);
    assert!(got.chars().count() <= 10);
    assert!(got.ends_with('…'));
}

#[test]
fn fit_returns_short_text_unchanged() {
    let got = fit_for_mastodon_plain("こんにちは", 500);
    assert_eq!(got, "こんにちは");
}

#[test]
fn strip_html_removes_tags_and_entities() {
    let got = strip_html("<p>Hello &amp; \"bye\" &lt;tag&gt;</p>  ");
    assert_eq!(got, "Hello & \"bye\" <tag>");
}

#[test]
fn strip_html_keeps_plain_text() {
    assert_eq!(strip_html("おはよう"), "おはよう");
    assert_eq!(strip_html("<span>今日の天気は？</span>"), "今日の天気は？");
}

#[test]
fn md_link_without_scheme_is_kept() {
    let s = "see [label](ftp://example.com/x)";
    let got = normalize_links_to_domains(s);
    assert_eq!(got, "see [label](ftp://example.com/x)");
}

#[test]
fn url_without_host_becomes_source() {
    let got = normalize_links_to_domains("go https:///nohost now");
    assert_eq!(got, "go (source) now");
}
