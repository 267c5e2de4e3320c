use imagr::catalog::{
    first_url, next_url, DownloadablePhoto, Link, Links, OriginalPhoto, Photo, Post, Response,
};
use imagr::consumer::{Consumer, Wait};
use imagr::producer::{Producer, ProducerAction};
use imagr::{Meta, ResponseEnvelope};

fn post(id: u64, slug: &str, urls: &[&str]) -> Post {
    Post {
        id,
        slug: slug.to_string(),
        photos: urls
            .iter()
            .map(|u| OriginalPhoto { original_size: Photo { url: u.to_string() } })
            .collect(),
    }
}

fn page(status: u16, posts: Vec<Post>, next: Option<&str>) -> ResponseEnvelope<Response> {
    ResponseEnvelope {
        meta: Meta { status, msg: "msg".to_string() },
        response: Response {
            posts,
            links: next.map(|h| Links {
                next: Link { href: h.to_string(), method: "GET".to_string() },
            }),
        },
    }
}

enum Seen {
    Fetch(String),
    Send(String, String),
    Close,
}

fn act(p: &mut Producer) -> Seen {
    match p.next_action() {
        ProducerAction::Fetch(u) => Seen::Fetch(u),
        ProducerAction::Send(DownloadablePhoto { filename, url }) => Seen::Send(filename, url),
        ProducerAction::Close => Seen::Close,
    }
}

fn expect_fetch(p: &mut Producer, url: &str) {
    match act(p) {
        Seen::Fetch(u) => assert_eq!(u, url),
        _ => panic!("expected a fetch of {}", url),
    }
}

fn expect_send(p: &mut Producer, name: &str, url: &str) {
    match act(p) {
        Seen::Send(f, u) => {
            assert_eq!(f, name);
            assert_eq!(u, url);
        }
        _ => panic!("expected a send of {}", name),
    }
}

fn expect_close(p: &mut Producer) {
    assert!(matches!(act(p), Seen::Close));
}

#[test]
fn page_urls() {
    assert_eq!(
        first_url("blog.example.com", "KEY"),
        "https://api.tumblr.com/v2/blog/blog.example.com/posts/photo?api_key=KEY"
    );
    assert_eq!(
        next_url("/v2/blog/b/posts/photo?page_number=2", "KEY"),
        "https://api.tumblr.com/v2/blog/b/posts/photo?page_number=2&api_key=KEY"
    );
}

#[test]
fn post_downloads_in_resource_order() {
    let p = post(7, "sunset", &["https://h/a/one.jpg", "https://h/b/two.png"]);
    let d = p.downloads();
    assert_eq!(d.len(), 2);
    assert_eq!(d[0].filename, "sunset-7-0.jpg");
    assert_eq!(d[0].url, "https://h/a/one.jpg");
    assert_eq!(d[1].filename, "sunset-7-1.png");
    assert_eq!(d[1].url, "https://h/b/two.png");
}

#[test]
fn post_without_resources_has_no_downloads() {
    assert!(post(9, "empty", &[]).downloads().is_empty());
}

#[test]
fn one_page_two_entries() {
    let mut p = Producer::new("b", "K");
    expect_fetch(&mut p, "https://api.tumblr.com/v2/blog/b/posts/photo?api_key=K");
    let posts = vec![post(1, "a", &["https://h/x.jpg", "https://h/y.gif"]), post(2, "b", &[])];
    assert!(p.on_page(page(200, posts, None)).is_ok());
    expect_send(&mut p, "a-1-0.jpg", "https://h/x.jpg");
    expect_send(&mut p, "a-1-1.gif", "https://h/y.gif");
    expect_close(&mut p);
    expect_close(&mut p);

    let mut c = Consumer::new();
    assert_eq!(c.wait(), Wait::QueueOrDownload);
    c.on_received();
    c.on_received();
    c.on_closed();
    assert_eq!(c.wait(), Wait::DownloadOnly);
    c.on_completed(Ok(()));
    assert!(!c.is_finished());
    c.on_completed(Ok(()));
    assert_eq!(c.wait(), Wait::Finished);
    assert!(c.is_finished());
    assert_eq!(c.outcome(), Ok(()));
}

#[test]
fn two_linked_pages() {
    let mut p = Producer::new("b", "K");
    expect_fetch(&mut p, "https://api.tumblr.com/v2/blog/b/posts/photo?api_key=K");
    let first = vec![post(1, "", &["https://h/1.jpg"]), post(2, "s", &["https://h/2.png"])];
    assert!(p.on_page(page(200, first, Some("/v2/blog/b/posts/photo?offset=2"))).is_ok());
    expect_send(&mut p, "1-0.jpg", "https://h/1.jpg");
    expect_send(&mut p, "s-2-0.png", "https://h/2.png");
    expect_fetch(&mut p, "https://api.tumblr.com/v2/blog/b/posts/photo?offset=2&api_key=K");
    let second = vec![post(3, "t", &["https://h/3.jpeg"])];
    assert!(p.on_page(page(200, second, None)).is_ok());
    expect_send(&mut p, "t-3-0.jpeg", "https://h/3.jpeg");
    expect_close(&mut p);
    expect_close(&mut p);
}

#[test]
fn failed_status_stops_the_walk() {
    let mut p = Producer::new("b", "K");
    expect_fetch(&mut p, "https://api.tumblr.com/v2/blog/b/posts/photo?api_key=K");
    let posts = vec![post(1, "a", &["https://h/x.jpg"])];
    match p.on_page(page(401, posts, None)) {
        Err(e) => {
            assert_eq!(e.status, 401);
            assert_eq!(e.msg, "msg");
        }
        Ok(()) => panic!("a failed status must be reported"),
    }
}

#[test]
fn empty_catalog_closes_at_once() {
    let mut p = Producer::new("b", "K");
    expect_fetch(&mut p, "https://api.tumblr.com/v2/blog/b/posts/photo?api_key=K");
    assert!(p.on_page(page(200, vec![], None)).is_ok());
    expect_close(&mut p);
}

#[test]
fn one_failure_among_five() {
    let mut c = Consumer::new();
    for _ in 0..5 {
        assert_eq!(c.wait(), Wait::QueueOrDownload);
        c.on_received();
    }
    assert_eq!(c.in_flight(), 5);
    c.on_completed(Ok(()));
    c.on_completed(Err("c.jpg: connection reset".to_string()));
    c.on_closed();
    c.on_completed(Ok(()));
    c.on_completed(Err("e.jpg: later failure".to_string()));
    assert_eq!(c.wait(), Wait::DownloadOnly);
    c.on_completed(Ok(()));
    assert_eq!(c.wait(), Wait::Finished);
    assert_eq!(c.outcome(), Err("c.jpg: connection reset".to_string()));
}

#[test]
fn closed_queue_with_nothing_in_flight_finishes() {
    let mut c = Consumer::new();
    assert!(!c.is_finished());
    c.on_closed();
    assert!(c.is_finished());
    assert_eq!(c.wait(), Wait::Finished);
    assert_eq!(c.outcome(), Ok(()));
}

#[test]
fn downloads_keep_running_while_queue_open() {
    let mut c = Consumer::new();
    c.on_received();
    c.on_completed(Ok(()));
    assert_eq!(c.in_flight(), 0);
    assert!(!c.is_finished());
    assert_eq!(c.wait(), Wait::QueueOrDownload);
}

#[test]
fn walker_reports_its_state() {
    let mut p = Producer::new("b", "K");
    assert!(!p.awaiting_page());
    expect_fetch(&mut p, "https://api.tumblr.com/v2/blog/b/posts/photo?api_key=K");
    assert!(p.awaiting_page());
    assert!(p.on_page(page(500, vec![], None)).is_err());
    assert!(!p.awaiting_page());
    assert!(p.has_failed());
}
