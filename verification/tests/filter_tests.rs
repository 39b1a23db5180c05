use itg_buddy::config::trim_newline;
use itg_buddy::config::ITGBuddyConfig;
use itg_buddy::event::filter;
use itg_buddy::event::Attachment;
use itg_buddy::event::InboundEvent;
use itg_buddy::text::ends_with_suffix;
use itg_buddy::text::str_eq;

fn event(origin: &str, attachments: Vec<(&str, &str)>) -> InboundEvent {
    InboundEvent {
        origin_channel_id: origin.to_string(),
        attachments: attachments
            .into_iter()
            .map(|(filename, url)| Attachment {
                filename: filename.to_string(),
                url: url.to_string(),
            })
            .collect(),
    }
}

#[test]
fn filter_rejects_foreign_channel() {
    let watched = "100200".to_string();
    let ev = event("999999", vec![("a.zip", "http://files/a.zip")]);
    let r = filter(&watched, &ev);
    assert!(r.is_empty());
}

#[test]
fn filter_rejects_event_without_attachments() {
    let watched = "100200".to_string();
    let ev = event("100200", vec![]);
    let r = filter(&watched, &ev);
    assert!(r.is_empty());
}

#[test]
fn filter_selects_exact_suffix_only() {
    let watched = "100200".to_string();
    let ev = event(
        "100200",
        vec![
            ("a.zip", "http://files/a.zip"),
            ("b.txt", "http://files/b.txt"),
            ("c.ZIP", "http://files/c.ZIP"),
        ],
    );
    let r = filter(&watched, &ev);
    assert_eq!(r.len(), 1);
    assert_eq!(r[0].source_url, "http://files/a.zip");
    assert!(r[0].overwrite);
}

#[test]
fn filter_keeps_attachment_order() {
    let watched = "7".to_string();
    let ev = event(
        "7",
        vec![
            ("one.zip", "u1"),
            ("skip.png", "u2"),
            ("two.zip", "u3"),
            ("three.zip", "u4"),
        ],
    );
    let r = filter(&watched, &ev);
    let urls: Vec<&str> = r.iter().map(|c| c.source_url.as_str()).collect();
    assert_eq!(urls, vec!["u1", "u3", "u4"]);
}

#[test]
fn ends_with_suffix_handles_edges() {
    assert!(ends_with_suffix("a.zip", ".zip"));
    assert!(ends_with_suffix(".zip", ".zip"));
    assert!(!ends_with_suffix("zip", ".zip"));
    assert!(!ends_with_suffix("", ".zip"));
    assert!(!ends_with_suffix("a.zipx", ".zip"));
    assert!(!ends_with_suffix("a.ZIP", ".zip"));
    assert!(ends_with_suffix("anything", ""));
}

#[test]
fn str_eq_compares_exactly() {
    assert!(str_eq("same", "same"));
    assert!(!str_eq("same", "samE"));
    assert!(!str_eq("short", "shorter"));
    assert!(str_eq("", ""));
}

#[test]
fn trim_newline_strips_trailing_line_ends() {
    let mut s = "token\r\n".to_string();
    trim_newline(&mut s);
    assert_eq!(s, "token");

    let mut t = "plain".to_string();
    trim_newline(&mut t);
    assert_eq!(t, "plain");

    let mut u = "\n\r\n".to_string();
    trim_newline(&mut u);
    assert_eq!(u, "");

    let mut v = "".to_string();
    trim_newline(&mut v);
    assert_eq!(v, "");

    let mut w = "inner\nkept\n".to_string();
    trim_newline(&mut w);
    assert_eq!(w, "inner\nkept");
}

#[test]
fn config_new_fills_credential_and_leaves_channel_empty() {
    let c = ITGBuddyConfig::new("example-token".to_string());
    assert_eq!(c.discord_key, "example-token");
    assert_eq!(c.add_song_channel_id, "");
}
