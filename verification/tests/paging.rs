use spotify_client::error::ClientError;
use spotify_client::paging::{Page, Walk};

fn page(items: &[&str], next: Option<&str>) -> Page<String> {
    Page { items: items.iter().map(|s| s.to_string()).collect(), next: next.map(|s| s.to_string()) }
}

/// Runs a walk to its end, serving the page stored under each address asked for.
fn collect_all(first: Page<String>, served: Vec<(&str, Result<Page<String>, ClientError>)>) -> (Result<Vec<String>, ClientError>, Vec<String>) {
    let mut asked = Vec::new();
    let mut served = served;
    let mut walk = Walk::start(first);
    loop {
        match walk {
            Walk::Pending(walker) => {
                let url = walker.url().to_string();
                let at = served.iter().position(|(u, _)| *u == url).expect("an address that was never named");
                let (_, fetched) = served.remove(at);
                asked.push(url);
                walk = walker.resume(fetched);
            }
            Walk::Done(items) => return (Ok(items), asked),
            Walk::Failed { error, .. } => return (Err(error), asked),
        }
    }
}

#[test]
fn walk_collects_two_pages_in_order() {
    let (items, asked) = collect_all(page(&["A", "B"], Some("page-2")), vec![("page-2", Ok(page(&["C"], None)))]);
    assert_eq!(items, Ok(vec!["A".to_string(), "B".to_string(), "C".to_string()]));
    assert_eq!(asked, vec!["page-2".to_string()]);
}

#[test]
fn walk_of_a_single_page_asks_for_nothing() {
    let walk = Walk::start(page(&["A", "B"], None));
    assert_eq!(walk, Walk::Done(vec!["A".to_string(), "B".to_string()]));
}

#[test]
fn walk_of_an_empty_listing_is_empty() {
    let walk: Walk<String> = Walk::start(page(&[], None));
    assert_eq!(walk, Walk::Done(vec![]));
}

#[test]
fn walk_waits_for_the_address_the_page_named() {
    match Walk::start(page(&["A"], Some("https://api.example/v1/me/tracks?offset=50&limit=50"))) {
        Walk::Pending(walker) => {
            assert_eq!(walker.url(), "https://api.example/v1/me/tracks?offset=50&limit=50");
            assert_eq!(walker.collected(), 1);
        }
        other => panic!("the walk ended early: {:?}", other),
    }
}

#[test]
fn walk_does_not_care_whether_the_address_is_a_cursor() {
    let (items, asked) = collect_all(
        page(&["a1"], Some("next?after=0aV6DOiouImYTqrR5YlIqx")),
        vec![
            ("next?after=0aV6DOiouImYTqrR5YlIqx", Ok(page(&["a2", "a3"], Some("next?after=zz")))),
            ("next?after=zz", Ok(page(&["a4"], None))),
        ],
    );
    assert_eq!(items, Ok(vec!["a1".to_string(), "a2".to_string(), "a3".to_string(), "a4".to_string()]));
    assert_eq!(asked, vec!["next?after=0aV6DOiouImYTqrR5YlIqx".to_string(), "next?after=zz".to_string()]);
}

#[test]
fn walk_goes_on_through_an_empty_page() {
    let (items, _) = collect_all(
        page(&["A"], Some("page-2")),
        vec![("page-2", Ok(page(&[], Some("page-3")))), ("page-3", Ok(page(&["B"], None)))],
    );
    assert_eq!(items, Ok(vec!["A".to_string(), "B".to_string()]));
}

#[test]
fn walk_fails_with_the_failure_of_the_fetch_and_returns_nothing() {
    let (items, asked) = collect_all(
        page(&["A", "B"], Some("page-2")),
        vec![("page-2", Ok(page(&["C"], Some("page-3")))), ("page-3", Err(ClientError::Transport))],
    );
    assert_eq!(items, Err(ClientError::Transport));
    assert_eq!(asked, vec!["page-2".to_string(), "page-3".to_string()]);
}

#[test]
fn walk_fails_with_the_status_of_the_fetch() {
    match Walk::start(page(&["A"], Some("page-2"))) {
        Walk::Pending(walker) => {
            assert_eq!(
                walker.resume(Err(ClientError::UpstreamStatus(429))),
                Walk::Failed { url: "page-2".to_string(), error: ClientError::UpstreamStatus(429) }
            );
        }
        other => panic!("the walk ended early: {:?}", other),
    }
}
