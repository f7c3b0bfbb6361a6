use og_preview::fetch::{Fetch, FetchAction, FetchEvent, FetchPhase, MediaType};
use og_preview::record::OgPreviewRes;

const GITHUB_PAGE: &str = r#"<!DOCTYPE html>
<html lang="en">
  <head>
    <meta charset="utf-8">
    <title>GitHub: Let's build from here</title>
    <meta name="description" content="GitHub is where people build software.">
    <meta property="og:image" content="https://github.githubassets.com/images/modules/site/social-cards/campaign-social.png">
    <meta property="og:image:alt" content="GitHub is where people build software.">
    <meta property="og:site_name" content="GitHub">
    <meta property="og:type" content="object">
    <meta property="og:title" content="GitHub: Let's build from here">
    <meta property="og:url" content="https://github.com/">
    <meta property="og:description" content="GitHub is where people build software.">
  </head>
  <body><h1>Let's build from here</h1></body>
</html>"#;

fn media_type(top: &str, sub: &str) -> MediaType {
    MediaType { top_level: String::from(top), sub_level: String::from(sub) }
}

/// Runs one fetch against a network that knows a single HTML page, and counts
/// the requests it was asked for.
fn build_preview(url: &str) -> (OgPreviewRes, usize, usize) {
    let (mut fetch, mut action) = Fetch::start(String::from(url));
    let mut probes = 0;
    let mut gets = 0;
    loop {
        let event = match action {
            FetchAction::SendProbe(to) => {
                probes += 1;
                assert_eq!(to, url);
                if to == "http://github.com" {
                    FetchEvent::ProbeAnswered(Some(media_type("text", "html")))
                } else if to == "http://github.com/logo.png" {
                    FetchEvent::ProbeAnswered(Some(media_type("image", "png")))
                } else {
                    FetchEvent::ProbeFailed
                }
            }
            FetchAction::SendGet(to) => {
                gets += 1;
                assert_eq!(to, url);
                FetchEvent::BodyReceived(Vec::from(GITHUB_PAGE.as_bytes()))
            }
            FetchAction::Deliver(record) => {
                assert_eq!(fetch.phase(), FetchPhase::Done);
                return (record, probes, gets);
            }
        };
        let next = fetch.step(event);
        fetch = next.0;
        action = next.1;
    }
}

#[test]
fn test_build_preview() {
    let (resp1, _, _) = build_preview("http://github.com");
    println!("resp 1: {:#?}", resp1);
    assert_eq!(
        match resp1 {
            OgPreviewRes {
                ok: true,
                title: Some(_),
                image: Some(_),
                ref images,
                description: Some(_),
                cached: Some(false),
            } if images.len() > 0 => true,
            _ => false,
        },
        true
    );

    let (resp2, _, _) = build_preview("bruh");
    println!("resp 2: {:#?}", resp2);
    assert_eq!(
        match resp2 {
            OgPreviewRes {
                ok: false,
                title: None,
                image: None,
                ref images,
                description: None,
                cached: None,
            } if images.len() == 0 => true,
            _ => false,
        },
        true
    );
}

#[test]
fn html_page_takes_one_probe_and_one_get() {
    let (record, probes, gets) = build_preview("http://github.com");
    assert_eq!(probes, 1);
    assert_eq!(gets, 1);
    assert_eq!(record.title, Some(String::from("GitHub: Let's build from here")));
    assert_eq!(
        record.description,
        Some(String::from("GitHub is where people build software."))
    );
    assert_eq!(record.images.len(), 1);
    assert_eq!(record.image.as_ref(), record.images.first());
}

#[test]
fn non_html_target_is_never_downloaded() {
    let (record, probes, gets) = build_preview("http://github.com/logo.png");
    assert_eq!(probes, 1);
    assert_eq!(gets, 0);
    assert!(!record.ok);
    assert_eq!(record.title, None);
    assert_eq!(record.description, None);
    assert_eq!(record.image, None);
    assert!(record.images.is_empty());
    assert_eq!(record.cached, None);
}

#[test]
fn unreachable_host_gives_the_empty_record() {
    let (record, probes, gets) = build_preview("bruh");
    assert_eq!(probes, 1);
    assert_eq!(gets, 0);
    assert!(!record.ok);
    assert!(record.images.is_empty());
    assert_eq!(record.cached, None);
}

#[test]
fn fetching_twice_gives_the_same_record() {
    let (one, _, _) = build_preview("http://github.com");
    let (two, _, _) = build_preview("http://github.com");
    assert_eq!(one.ok, two.ok);
    assert_eq!(one.title, two.title);
    assert_eq!(one.image, two.image);
    assert_eq!(one.images, two.images);
    assert_eq!(one.description, two.description);
}

#[test]
fn fetch_starts_with_the_probe() {
    let (fetch, action) = Fetch::start(String::from("http://example.com/a"));
    assert_eq!(fetch.phase(), FetchPhase::Probing);
    assert_eq!(fetch.url(), "http://example.com/a");
    assert!(matches!(action, FetchAction::SendProbe(ref u) if u == "http://example.com/a"));
}

#[test]
fn html_probe_is_followed_by_get_of_the_same_url() {
    let (fetch, _) = Fetch::start(String::from("http://example.com/a"));
    let (fetch, action) = fetch.step(FetchEvent::ProbeAnswered(Some(media_type("text", "html"))));
    assert_eq!(fetch.phase(), FetchPhase::Downloading);
    assert_eq!(fetch.url(), "http://example.com/a");
    assert!(matches!(action, FetchAction::SendGet(ref u) if u == "http://example.com/a"));
}

#[test]
fn probe_without_content_type_ends_the_fetch() {
    let (fetch, _) = Fetch::start(String::from("http://example.com/a"));
    let (fetch, action) = fetch.step(FetchEvent::ProbeAnswered(None));
    assert_eq!(fetch.phase(), FetchPhase::Done);
    assert!(matches!(action, FetchAction::Deliver(ref r) if !r.ok && r.cached.is_none()));
}

#[test]
fn other_text_types_end_the_fetch() {
    for (top, sub) in [("text", "plain"), ("application", "html"), ("text", "htm"), ("", "")] {
        let (fetch, _) = Fetch::start(String::from("u"));
        let (fetch, action) = fetch.step(FetchEvent::ProbeAnswered(Some(media_type(top, sub))));
        assert_eq!(fetch.phase(), FetchPhase::Done);
        assert!(matches!(action, FetchAction::Deliver(ref r) if !r.ok));
    }
}

#[test]
fn failed_download_gives_the_empty_record() {
    let (fetch, _) = Fetch::start(String::from("u"));
    let (fetch, _) = fetch.step(FetchEvent::ProbeAnswered(Some(media_type("text", "html"))));
    let (fetch, action) = fetch.step(FetchEvent::BodyFailed);
    assert_eq!(fetch.phase(), FetchPhase::Done);
    match action {
        FetchAction::Deliver(record) => {
            assert!(!record.ok);
            assert_eq!(record.title, None);
            assert!(record.images.is_empty());
            assert_eq!(record.cached, None);
        }
        other => panic!("unexpected action {:?}", other),
    }
}

#[test]
fn downloaded_body_is_parsed() {
    let (fetch, _) = Fetch::start(String::from("u"));
    let (fetch, _) = fetch.step(FetchEvent::ProbeAnswered(Some(media_type("text", "html"))));
    let body = Vec::from(&b"<title>B</title><meta property=\"og:image\" content=\"i\">"[..]);
    let (fetch, action) = fetch.step(FetchEvent::BodyReceived(body));
    assert_eq!(fetch.phase(), FetchPhase::Done);
    match action {
        FetchAction::Deliver(record) => {
            assert!(record.ok);
            assert_eq!(record.title, Some(String::from("B")));
            assert_eq!(record.images, vec!["i"]);
            assert_eq!(record.cached, Some(false));
        }
        other => panic!("unexpected action {:?}", other),
    }
}

#[test]
fn body_that_cannot_be_parsed_gives_the_empty_record() {
    let (fetch, _) = Fetch::start(String::from("u"));
    let (fetch, _) = fetch.step(FetchEvent::ProbeAnswered(Some(media_type("text", "html"))));
    let (_, action) = fetch.step(FetchEvent::BodyReceived(vec![0xc3, 0x28]));
    assert!(matches!(action, FetchAction::Deliver(ref r) if !r.ok && r.cached.is_none()));
}

#[test]
fn body_before_probe_answer_ends_the_fetch() {
    let (fetch, _) = Fetch::start(String::from("u"));
    let body = Vec::from(&b"<title>B</title>"[..]);
    let (fetch, action) = fetch.step(FetchEvent::BodyReceived(body));
    assert_eq!(fetch.phase(), FetchPhase::Done);
    assert!(matches!(action, FetchAction::Deliver(ref r) if !r.ok && r.title.is_none()));
}

#[test]
fn second_probe_answer_ends_the_fetch() {
    let (fetch, _) = Fetch::start(String::from("u"));
    let (fetch, _) = fetch.step(FetchEvent::ProbeAnswered(Some(media_type("text", "html"))));
    let (fetch, action) = fetch.step(FetchEvent::ProbeAnswered(Some(media_type("text", "html"))));
    assert_eq!(fetch.phase(), FetchPhase::Done);
    assert!(matches!(action, FetchAction::Deliver(ref r) if !r.ok));
}

#[test]
fn finished_fetch_stays_finished() {
    let (fetch, _) = Fetch::start(String::from("u"));
    let (fetch, _) = fetch.step(FetchEvent::ProbeFailed);
    let body = Vec::from(&b"<title>B</title>"[..]);
    let (fetch, action) = fetch.step(FetchEvent::BodyReceived(body));
    assert_eq!(fetch.phase(), FetchPhase::Done);
    assert!(matches!(action, FetchAction::Deliver(ref r) if !r.ok));
    let (fetch, action) = fetch.step(FetchEvent::ProbeAnswered(Some(media_type("text", "html"))));
    assert_eq!(fetch.phase(), FetchPhase::Done);
    assert!(matches!(action, FetchAction::Deliver(ref r) if !r.ok));
}

#[test]
fn media_type_is_html_only_for_text_html() {
    assert!(media_type("text", "html").is_html());
    assert!(!media_type("text", "plain").is_html());
    assert!(!media_type("image", "html").is_html());
    assert!(!media_type("Text", "html").is_html());
    assert!(!media_type("text", "HTML").is_html());
    assert!(!media_type("text", "html5").is_html());
    assert!(!media_type("html", "text").is_html());
}
