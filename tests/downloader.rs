use std::collections::HashMap;
use std::sync::Arc;

use crawl::downloader::{Downloader, ResMessage};
use crawl::fetch::{FetchAction, FetchEvent};

/// Takes the next request, fetches it against `pages` (a missing page is a
/// failed attempt) and an in-memory cache, and queues its response. Returns
/// the URLs that went to the network.
fn fetch_next<E>(
    d: &mut Downloader<E>,
    pages: &HashMap<&str, &str>,
    cache: &mut HashMap<String, Vec<u8>>,
) -> Vec<String> {
    let req = d.take_request().expect("a queued request");
    let mut fetched = Vec::new();
    let (mut job, mut action) = d.begin_download(&req);
    let data = loop {
        let event = match action {
            FetchAction::Respond(r) => break r,
            FetchAction::ReadCache => {
                let key = job.key().clone().unwrap();
                FetchEvent::CacheRead(cache.get(&key).cloned())
            }
            FetchAction::Download => {
                fetched.push(req.url().clone());
                FetchEvent::Downloaded(pages.get(req.url().as_str()).map(|p| p.as_bytes().to_vec()))
            }
            FetchAction::Wait => FetchEvent::Waited,
            FetchAction::Store => {
                cache.insert(job.key().clone().unwrap(), job.body().clone());
                FetchEvent::Stored(Ok(()))
            }
        };
        action = job.step(event);
    };
    assert!(d.fetching() > 0);
    d.complete_fetch(req, data);
    fetched
}

#[test]
fn new_downloader_is_idle() {
    let d: Downloader<u32> = Downloader::new(String::from("data"), String::from("http://x/"));
    assert_eq!(d.enqueued_count(), 0);
    assert_eq!(d.fetch_started_count(), 0);
    assert_eq!(d.fetch_completed_count(), 0);
    assert_eq!(d.parse_completed_count(), 0);
    assert_eq!(d.root_path(), "data");
    assert_eq!(d.base_url(), "http://x/");
    assert!(d.is_finished());
}

#[test]
fn requests_leave_in_order() {
    let mut d: Downloader<u32> = Downloader::new(String::from("data"), String::from("http://x/"));
    assert!(d.start_url(String::from("http://x/1"), false, Arc::new(1)).is_ok());
    assert!(d.start_url(String::from("http://x/2"), true, Arc::new(2)).is_ok());
    assert_eq!(d.enqueued_count(), 2);
    assert_eq!(d.pending_requests(), 2);
    let a = d.take_request().unwrap();
    let b = d.take_request().unwrap();
    assert!(d.take_request().is_none());
    assert_eq!(a.url(), "http://x/1");
    assert!(!a.force());
    assert_eq!(**a.flag(), 1);
    assert_eq!(b.url(), "http://x/2");
    assert!(b.force());
    assert_eq!(**b.flag(), 2);
    assert_eq!(d.fetch_started_count(), 2);
    assert_eq!(d.fetching(), 2);
}

#[test]
fn response_carries_request_url_and_context() {
    let mut d: Downloader<&str> = Downloader::new(String::from("data"), String::from("http://x/"));
    let ctx = Arc::new("parent");
    d.start_url(String::from("http://x/a"), false, Arc::clone(&ctx)).unwrap();
    let req = d.take_request().unwrap();
    d.complete_fetch(req, Ok(Some(vec![1, 2, 3])));
    assert_eq!(d.fetch_completed_count(), 1);
    assert_eq!(d.pending_responses(), 1);
    let res = d.get_msg().unwrap();
    assert_eq!(res.url, "http://x/a");
    assert!(Arc::ptr_eq(&res.flag, &ctx));
    assert_eq!(res.data.as_ref().unwrap(), &Some(vec![1, 2, 3]));
    assert!(d.get_msg().is_none());
}

#[test]
fn not_finished_while_any_request_is_in_flight() {
    let mut d: Downloader<()> = Downloader::new(String::from("data"), String::from("http://x/"));
    d.start_url(String::from("http://x/a"), false, Arc::new(())).unwrap();
    assert!(!d.is_finished());
    let req = d.take_request().unwrap();
    assert_eq!(d.pending_requests(), 0);
    assert!(!d.is_finished());
    d.complete_fetch(req, Ok(None));
    assert!(!d.is_finished());
    let res = d.get_msg().unwrap();
    assert_eq!(d.pending_responses(), 0);
    assert_eq!(d.enqueued_count(), d.fetch_completed_count());
    assert_eq!(d.parsing(), 1);
    assert!(!d.is_finished());
    d.finish_parse(res);
    assert_eq!(d.parse_completed_count(), 1);
    assert!(d.is_finished());
}

#[test]
fn retry_queues_same_url_and_context() {
    let mut d: Downloader<String> = Downloader::new(String::from("data"), String::from("http://x/"));
    let ctx = Arc::new(String::from("province"));
    d.start_url(String::from("http://x/p"), false, Arc::clone(&ctx)).unwrap();
    let req = d.take_request().unwrap();
    d.complete_fetch(req, Ok(Some(vec![0xff])));
    let res: ResMessage<String> = d.get_msg().unwrap();
    let before = d.enqueued_count();
    assert!(res.retry(&mut d, true).is_ok());
    assert_eq!(d.enqueued_count(), before + 1);
    assert_eq!(d.pending_requests(), 1);
    let again = d.take_request().unwrap();
    assert_eq!(again.url(), "http://x/p");
    assert!(again.force());
    assert!(Arc::ptr_eq(again.flag(), &ctx));
    d.finish_parse(res);
    assert!(!d.is_finished());
}

#[test]
fn crawl_follows_same_origin_links() {
    let mut pages = HashMap::new();
    pages.insert("http://x/", "http://x/a http://x/b http://x/c http://y/foreign");
    pages.insert("http://x/a", "leaf");
    pages.insert("http://x/b", "leaf");
    pages.insert("http://x/c", "leaf");
    pages.insert("http://y/foreign", "http://x/never");
    let mut cache = HashMap::new();
    let mut d: Downloader<u32> = Downloader::new(String::from("data"), String::from("http://x/"));
    d.start_url(String::from("http://x/"), false, Arc::new(0)).unwrap();

    let mut fetched: Vec<String> = Vec::new();
    let mut responses = 0;
    let mut with_body = 0;
    let mut rounds = 0;
    while !d.is_finished() {
        rounds += 1;
        assert!(rounds < 100);
        while d.pending_requests() > 0 {
            fetched.extend(fetch_next(&mut d, &pages, &mut cache));
        }
        while let Some(res) = d.get_msg() {
            responses += 1;
            if let Ok(Some(b)) = &res.data {
                with_body += 1;
                let text = String::from_utf8(b.clone()).unwrap();
                for link in text.split_whitespace().filter(|w| w.starts_with("http")) {
                    d.start_url(link.to_string(), false, Arc::new(*res.flag + 1)).unwrap();
                }
            } else {
                assert_eq!(res.url, "http://y/foreign");
                assert!(matches!(res.data, Ok(None)));
            }
            d.finish_parse(res);
        }
    }
    assert_eq!(fetched.len(), 4);
    assert!(!fetched.iter().any(|u| u.contains("foreign")));
    assert_eq!(with_body, 4);
    assert_eq!(responses, 5);
    assert_eq!(d.enqueued_count(), 5);
    assert_eq!(d.fetch_completed_count(), 5);
    assert_eq!(cache.len(), 4);
}

#[test]
fn failing_url_gives_empty_response() {
    let pages: HashMap<&str, &str> = HashMap::new();
    let mut cache = HashMap::new();
    let mut d: Downloader<()> = Downloader::new(String::from("data"), String::from("http://x/"));
    d.start_url(String::from("http://x/gone"), false, Arc::new(())).unwrap();
    let fetched = fetch_next(&mut d, &pages, &mut cache);
    assert_eq!(fetched.len(), 5);
    let res = d.get_msg().unwrap();
    assert!(matches!(res.data, Ok(None)));
    d.finish_parse(res);
    assert!(d.is_finished());
}
