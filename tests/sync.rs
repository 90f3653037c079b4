use ytsubs::opml::{convert_to_opml_string, EncodeError};
use ytsubs::text::starts_with;
use ytsubs::ttrss::{
    api_endpoint, filter_events, import_outcome, ImportSession, import_request_body, login_outcome,
    login_request_body, summarize, total_events, Content, ImportOpml, Login, ResponseResult,
    TtrssError,
};
use ytsubs::youtube::{
    channel_id_from_feed_url, subscriptions_page_url, PageCursor, SubscriptionPage,
    YoutubeSubscription,
};

fn sub(title: &str, channel: &str) -> YoutubeSubscription {
    YoutubeSubscription { title: title.to_string(), channel: channel.to_string() }
}

fn lines(v: &[&str]) -> Vec<String> {
    v.iter().map(|s| s.to_string()).collect()
}

fn page(items: Vec<YoutubeSubscription>, total: i32, next: Option<&str>) -> SubscriptionPage {
    SubscriptionPage { items, total_results: total, next_page_token: next.map(|s| s.to_string()) }
}

#[test]
fn feed_and_channel_urls() {
    let s = sub("Some Channel", "UCabc123");
    assert_eq!(s.channel_feed_url(), "https://www.youtube.com/feeds/videos.xml?channel_id=UCabc123");
    assert_eq!(s.channel_url(), "https://www.youtube.com/channel/UCabc123");
}

#[test]
fn feed_url_round_trip() {
    for id in ["UCabc123", "", "UC-_x?=&"] {
        let s = sub("t", id);
        assert_eq!(channel_id_from_feed_url(&s.channel_feed_url()), Some(id.to_string()));
    }
    assert_eq!(channel_id_from_feed_url("https://www.youtube.com/channel/UCabc"), None);
}

#[test]
fn prefix_test() {
    assert!(starts_with("Added feeds: 3.", "Added feeds"));
    assert!(starts_with("abc", ""));
    assert!(!starts_with("ab", "abc"));
    assert!(!starts_with("added feeds", "Added feeds"));
}

#[test]
fn page_urls() {
    assert_eq!(
        subscriptions_page_url(&None),
        "https://youtube.googleapis.com/youtube/v3/subscriptions?part=snippet&mine=true&order=alphabetical&maxResults=50"
    );
    assert_eq!(
        subscriptions_page_url(&Some("CDIQAA".to_string())),
        "https://youtube.googleapis.com/youtube/v3/subscriptions?part=snippet&mine=true&maxResults=50&order=alphabetical&pageToken=CDIQAA"
    );
}

#[test]
fn pagination_follows_tokens_until_absent() {
    let pages = vec![
        page(vec![sub("A", "1"), sub("B", "2")], 5, Some("a")),
        page(vec![sub("C", "3")], 5, Some("b")),
        page(vec![sub("D", "4"), sub("E", "5")], 5, None),
    ];
    let mut cursor = PageCursor::new();
    let mut requests = Vec::new();
    let mut progress = Vec::new();
    let mut pages = pages.into_iter();
    while let Some(url) = cursor.next_request_url() {
        requests.push(url);
        let p = pages.next().expect("more requests than pages");
        progress.push(cursor.absorb(p));
    }
    assert_eq!(requests.len(), 3);
    assert_eq!(requests[0], subscriptions_page_url(&None));
    assert_eq!(requests[1], subscriptions_page_url(&Some("a".to_string())));
    assert_eq!(requests[2], subscriptions_page_url(&Some("b".to_string())));
    assert_eq!(progress, vec![(2, 5), (3, 5), (5, 5)]);
    assert!(cursor.is_finished());
    let titles: Vec<String> = cursor.into_items().into_iter().map(|s| s.title).collect();
    assert_eq!(titles, lines(&["A", "B", "C", "D", "E"]));
}

#[test]
fn single_page_without_token_finishes() {
    let mut cursor = PageCursor::new();
    assert!(!cursor.is_finished());
    assert_eq!(cursor.absorb(page(vec![], 0, None)), (0, 0));
    assert!(cursor.is_finished());
    assert_eq!(cursor.next_request_url(), None);
}

#[test]
fn encode_one_record_exactly() {
    let doc = convert_to_opml_string("YouTube", &[sub("Tom & \"Jerry\" <3>", "UC1")]).unwrap();
    assert_eq!(
        doc,
        "<opml version=\"1.1\"><body><outline text=\"YouTube\" title=\"YouTube\">\
<outline text=\"Tom &amp; &quot;Jerry&quot; &lt;3&gt;\" title=\"Tom &amp; &quot;Jerry&quot; &lt;3&gt;\" type=\"rss\" \
xmlUrl=\"https://www.youtube.com/feeds/videos.xml?channel_id=UC1\" htmlUrl=\"https://www.youtube.com/channel/UC1\"/>\
</outline></body></opml>"
    );
}

#[test]
fn encode_empty_list() {
    assert_eq!(
        convert_to_opml_string("c'at", &[]).unwrap(),
        "<opml version=\"1.1\"><body><outline text=\"c&apos;at\" title=\"c&apos;at\"></outline></body></opml>"
    );
}

#[test]
fn encode_keeps_order_and_duplicates() {
    let subs = vec![sub("Zed", "3"), sub("Alpha", "1"), sub("Zed", "3")];
    let doc = convert_to_opml_string("cat", &subs).unwrap();
    assert_eq!(doc.matches("<outline").count(), 4);
    let z = doc.find("text=\"Zed\"").unwrap();
    let a = doc.find("text=\"Alpha\"").unwrap();
    assert!(z < a);
    assert_eq!(doc.matches("text=\"Zed\"").count(), 2);
}

#[test]
fn encode_rejects_control_characters() {
    assert_eq!(
        convert_to_opml_string("cat", &[sub("bad\u{1}title", "1")]),
        Err(EncodeError::UnrepresentableCharacter)
    );
    assert_eq!(convert_to_opml_string("c\u{0}", &[]), Err(EncodeError::UnrepresentableCharacter));
    assert!(convert_to_opml_string("tab\there\r\n", &[sub("ok", "x")]).is_ok());
}

#[test]
fn request_bodies() {
    assert_eq!(
        login_request_body("ad\"min", "pa\\ss"),
        "{\"op\":\"login\",\"password\":\"pa\\\\ss\",\"user\":\"ad\\\"min\"}"
    );
    assert_eq!(
        import_request_body("hi", "sid1"),
        "{\"op\":\"importOPML\",\"opml\":\"aGk=\",\"sid\":\"sid1\"}"
    );
}

#[test]
fn api_endpoints() {
    assert_eq!(api_endpoint("https://example.com/tt-rss/"), Ok("https://example.com/tt-rss/api/".to_string()));
    assert_eq!(api_endpoint("https://example.com"), Ok("https://example.com/api/".to_string()));
    assert_eq!(api_endpoint("not a url"), Err(TtrssError::InvalidUrl));
}

#[test]
fn bucketing_by_markers() {
    let report = lines(&["Subscribed feeds: 5.", "Duplicate feeds: 2.", "Added feeds: 3.", "Disabled feeds: 0."]);
    assert_eq!(filter_events(&report, "Duplicate feeds"), lines(&["Duplicate feeds: 2."]));
    assert_eq!(filter_events(&report, "Added feeds"), lines(&["Added feeds: 3."]));
}

#[test]
fn bucketing_trims_lines() {
    let report = lines(&["  Added feed x  ", "added feed y", "\tAdded feed z"]);
    assert_eq!(filter_events(&report, "Added feed"), lines(&["Added feed x", "Added feed z"]));
    assert_eq!(filter_events(&lines(&[]), "Added feed"), lines(&[]));
}

#[test]
fn total_is_length_minus_two() {
    assert_eq!(total_events(&lines(&["a", "b", "c", "d"])), Some(2));
    assert_eq!(total_events(&lines(&["a", "b"])), Some(0));
    assert_eq!(total_events(&lines(&["a"])), None);
    assert_eq!(total_events(&lines(&[])), None);
}

fn envelope(status: i32, content: Content) -> ResponseResult {
    ResponseResult { seq: 0, status, content, raw_content: "{\"error\":\"X\"}".to_string() }
}

#[test]
fn login_decisions() {
    let ok = envelope(0, Content::Login(Login { session_id: "s1".to_string(), api_level: 18 }));
    assert_eq!(login_outcome(ok), Ok("s1".to_string()));
    let bad = envelope(1, Content::Login(Login { session_id: "s1".to_string(), api_level: 18 }));
    assert_eq!(login_outcome(bad), Err(TtrssError::LoginFailed("{\"error\":\"X\"}".to_string())));
    let other = envelope(0, Content::Error("{}".to_string()));
    assert_eq!(login_outcome(other), Err(TtrssError::LoginFailed("{\"error\":\"X\"}".to_string())));
}

fn report(message: &[&str]) -> ImportOpml {
    ImportOpml {
        message: lines(message),
        duplicate_message: "Duplicate feed".to_string(),
        added_message: "Added feed".to_string(),
    }
}

#[test]
fn import_failure_surfaces_raw_content() {
    let r = import_outcome(envelope(1, Content::ImportOpml(report(&["a", "b"]))));
    assert_eq!(r.err(), Some(TtrssError::ImportFailed("{\"error\":\"X\"}".to_string())));
    let r = import_outcome(envelope(0, Content::Login(Login { session_id: "s".to_string(), api_level: 1 })));
    assert_eq!(r.err(), Some(TtrssError::ImportFailed("{\"error\":\"X\"}".to_string())));
}

#[test]
fn end_to_end_two_pages() {
    let mut cursor = PageCursor::new();
    let mut calls = 0;
    while cursor.next_request_url().is_some() {
        let first = calls == 0;
        let items: Vec<YoutubeSubscription> = (0..25)
            .map(|i| sub(&format!("Channel {}", calls * 25 + i), &format!("UC{}", calls * 25 + i)))
            .collect();
        cursor.absorb(page(items, 50, if first { Some("p2") } else { None }));
        calls += 1;
    }
    assert_eq!(calls, 2);
    let subs = cursor.into_items();
    assert_eq!(subs.len(), 50);
    let doc = convert_to_opml_string("YouTube", &subs).unwrap();
    assert_eq!(doc.matches("type=\"rss\"").count(), 50);

    let login = login_outcome(envelope(0, Content::Login(Login { session_id: "sid".to_string(), api_level: 18 })));
    let sid = login.unwrap();
    assert!(import_request_body(&doc, &sid).ends_with(",\"sid\":\"sid\"}"));
    let rep = import_outcome(envelope(
        0,
        Content::ImportOpml(report(&[
            "Importing OPML...",
            "Added feed Channel 0",
            "Added feed Channel 1",
            "Duplicate feed Channel 2",
            "Done.",
        ])),
    ))
    .unwrap();
    let summary = summarize(&rep);
    assert_eq!(summary.total, Some(3));
    assert_eq!(summary.added.len(), 2);
    assert_eq!(summary.duplicated, lines(&["Duplicate feed Channel 2"]));
}

#[test]
fn import_session_runs_login_then_upload() {
    let mut session = ImportSession::new("hi".to_string(), "u".to_string(), "p".to_string());
    assert!(!session.is_finished());
    assert_eq!(session.next_request_body(), Some(login_request_body("u", "p")));
    assert_eq!(session.next_request_timeout_secs(), None);
    let login = envelope(0, Content::Login(Login { session_id: "sid9".to_string(), api_level: 18 }));
    assert!(matches!(session.on_response(login), Ok(None)));
    assert_eq!(session.next_request_body(), Some(import_request_body("hi", "sid9")));
    assert_eq!(session.next_request_timeout_secs(), Some(60));
    let done = envelope(0, Content::ImportOpml(report(&["a", "Added feed x", "b"])));
    let rep = session.on_response(done).unwrap().unwrap();
    assert_eq!(rep.message, lines(&["a", "Added feed x", "b"]));
    assert!(session.is_finished());
    assert_eq!(session.next_request_body(), None);
}

#[test]
fn import_session_stops_on_failed_login() {
    let mut session = ImportSession::new("hi".to_string(), "u".to_string(), "p".to_string());
    let bad = envelope(1, Content::Error("{\"error\":\"LOGIN_ERROR\"}".to_string()));
    assert_eq!(
        session.on_response(bad).err(),
        Some(TtrssError::LoginFailed("{\"error\":\"X\"}".to_string()))
    );
    assert!(session.is_finished());
    assert_eq!(session.next_request_body(), None);
}

#[test]
fn import_session_upload_failure_surfaces_raw_content() {
    let mut session = ImportSession::new("hi".to_string(), "u".to_string(), "p".to_string());
    let login = envelope(0, Content::Login(Login { session_id: "s".to_string(), api_level: 1 }));
    assert!(session.on_response(login).is_ok());
    let fail = envelope(1, Content::Error("{}".to_string()));
    assert_eq!(
        session.on_response(fail).err(),
        Some(TtrssError::ImportFailed("{\"error\":\"X\"}".to_string()))
    );
    assert!(session.is_finished());
}
