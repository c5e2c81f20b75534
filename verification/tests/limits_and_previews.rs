//! Spacing requests and previewing links.

use insights_bot::reply::Reply;
use insights_bot::services::link_preview::{
    charset_from_meta_content, decode_response_body, judge_content_type, judge_label, label_of_meta,
    parse_preview_meta, preview_meta_from, sniff_encoding, FetchStep, GoParityUrlPolicy,
    HttpLinkPreviewer, LinkPreviewError, PageFacts, PreviewRequest, SniffedEncoding, UrlPolicy,
    DEFAULT_USER_AGENT, TWITTER_SSR_HOSTS, TWITTER_USER_AGENT,
};
use insights_bot::services::message_capture::PreviewMeta;
use insights_bot::services::rate_limit::{GoRateLimiter, SECOND_NS};

#[test]
fn the_first_take_issues_immediately() {
    let mut limiter = GoRateLimiter::per_second(1);
    assert_eq!(limiter.reserve(5), 0);
    assert_eq!(limiter.takes(), 1);
}

#[test]
fn a_second_take_owes_one_whole_period() {
    let mut limiter = GoRateLimiter::per_second(1);
    limiter.prime(5);
    assert_eq!(limiter.reserve(5), SECOND_NS);
    assert_eq!(limiter.takes(), 2);
}

#[test]
fn an_idle_limiter_caps_its_credit_at_the_slack() {
    let mut limiter = GoRateLimiter::per_second(1);
    limiter.prime(0);
    let now = 120 * SECOND_NS;
    assert_eq!(limiter.reserve(now), 0);
    for _ in 0..10 {
        assert_eq!(limiter.reserve(now), 0);
    }
    assert_eq!(limiter.reserve(now), SECOND_NS);
}

#[test]
fn the_period_is_the_window_divided_by_the_rate() {
    let limiter = GoRateLimiter::per_second(1000);
    assert_eq!(limiter.per_request(), 1_000_000);
    assert_eq!(limiter.max_slack(), 10_000_000);
    assert_eq!(GoRateLimiter::new(0, 7, 2).per_request(), 7);
}

#[test]
fn the_twitter_hosts_take_the_googlebot_user_agent() {
    for host in TWITTER_SSR_HOSTS {
        let url = format!("https://{host}/nekomeowww/status/1");
        assert_eq!(HttpLinkPreviewer::user_agent_for(&url), TWITTER_USER_AGENT);
    }
}

#[test]
fn every_other_host_keeps_the_chrome_user_agent() {
    for raw in [
        "https://example.com/a",
        "https://mobile.twitter.com/a",
        "https://x.com/a",
        "https://twitter.com:8443/a",
    ] {
        assert_eq!(HttpLinkPreviewer::user_agent_for(raw), DEFAULT_USER_AGENT);
    }
}

fn facts() -> PageFacts {
    PageFacts {
        allowed: Some(GoParityUrlPolicy.allows("https://example.com/")),
        status: Reply::Got(200),
        page: Reply::Got((
            Some("text/html; charset=utf-8".to_string()),
            b"<html><head><title> A </title></head></html>".to_vec(),
        )),
    }
}

#[test]
fn a_request_goes_to_the_serialized_address() {
    let url = "https://EXAMPLE.com";
    let step = |facts: PageFacts| HttpLinkPreviewer::fetch_step(url, &facts);
    assert_eq!(
        step(PageFacts::new()),
        FetchStep::AskPolicy { url: "https://example.com/".to_string() }
    );
    assert_eq!(
        step(PageFacts { status: Reply::Pending, ..facts() }),
        FetchStep::Request(PreviewRequest {
            url: "https://example.com/".to_string(),
            user_agent: DEFAULT_USER_AGENT,
        })
    );
    assert_eq!(step(PageFacts { page: Reply::Pending, ..facts() }), FetchStep::ReadBody);
    assert_eq!(
        step(facts()),
        FetchStep::Finished(PreviewMeta {
            title: "A".to_string(),
            open_graph_title: String::new(),
        })
    );
}

#[test]
fn a_preview_fails_for_its_reason() {
    let step = |facts: PageFacts| HttpLinkPreviewer::fetch_step("https://example.com", &facts);
    let rejected = LinkPreviewError::PolicyRejected;
    assert_eq!(
        step(PageFacts { allowed: Some(Err(rejected)), ..facts() }),
        FetchStep::Failed(rejected)
    );
    assert_eq!(
        step(PageFacts { status: Reply::Failed, ..facts() }),
        FetchStep::Failed(LinkPreviewError::Network)
    );
    for status in [199, 300, 404] {
        assert_eq!(
            step(PageFacts { status: Reply::Got(status), ..facts() }),
            FetchStep::Failed(LinkPreviewError::RequestFailed { status })
        );
    }
    assert_eq!(
        step(PageFacts { page: Reply::Failed, ..facts() }),
        FetchStep::Failed(LinkPreviewError::BodyRead)
    );
    assert_eq!(
        HttpLinkPreviewer::fetch_step("not an address", &facts()),
        FetchStep::Failed(LinkPreviewError::Network)
    );
    assert_eq!(
        HttpLinkPreviewer::fetch_step_with("x", None, &facts()),
        FetchStep::Failed(LinkPreviewError::Network)
    );
    assert_eq!(LinkPreviewError::Network.message(), "link preview network error");
    assert_eq!(
        LinkPreviewError::RequestFailed { status: 404 }.message(),
        "link preview request failed, status code: 404"
    );
    assert_eq!(
        LinkPreviewError::BodyRead.message(),
        "failed to read link preview response body"
    );
    assert_eq!(rejected.message(), "link preview destination rejected by policy");
}

#[test]
fn titles_are_read_from_the_head() {
    let html = "<html><head><title> A &amp; B </title>\
        <meta property=\"og:title\" content=\"Shared\"></head><body><title>no</title></body></html>";
    let meta = parse_preview_meta(html);
    assert_eq!(meta.open_graph_title, "Shared");
    assert_eq!(meta.title, "A & B");
    assert_eq!(
        preview_meta_from(&Vec::new(), &Vec::new()),
        PreviewMeta { title: String::new(), open_graph_title: String::new() }
    );
    let none = parse_preview_meta("plain");
    assert_eq!((none.title.as_str(), none.open_graph_title.as_str()), ("", ""));
}

#[test]
fn charsets_are_found_in_meta_content() {
    assert_eq!(
        charset_from_meta_content("text/html; charset=gbk"),
        Some("gbk".to_string())
    );
    assert_eq!(
        charset_from_meta_content("text/html; CHARSET = \"Big5\" ; x"),
        Some("Big5".to_string())
    );
    assert_eq!(charset_from_meta_content("text/html"), None);
    assert_eq!(charset_from_meta_content("charset='open"), None);
    assert_eq!(
        label_of_meta(&Some("gbk".to_string()), &None, &None),
        Some("gbk".to_string())
    );
    assert_eq!(
        label_of_meta(
            &None,
            &Some("Content-Type".to_string()),
            &Some("text/html; charset=big5".to_string())
        ),
        Some("big5".to_string())
    );
    assert_eq!(judge_label("nonsense", None), None);
    assert_eq!(judge_label("utf-8", Some(true)), Some(SniffedEncoding::Raw));
    assert_eq!(
        judge_label("gbk", Some(false)),
        Some(SniffedEncoding::Decode("gbk".to_string()))
    );
}

#[test]
fn bodies_are_decoded_as_they_say() {
    assert_eq!(decode_response_body("群".as_bytes(), Some("text/html; charset=utf-8")), "群");
    assert_eq!(decode_response_body(&[0xC8, 0xBA], Some("text/html; charset=gbk")), "群");
    assert_eq!(
        decode_response_body(b"<meta charset=\"gbk\">\xC8\xBA", Some("text/html")),
        "<meta charset=\"gbk\">群"
    );
    assert_eq!(sniff_encoding(b"plain"), None);
    assert_eq!(judge_content_type(None, None), Some(SniffedEncoding::Raw));
}
