use std::collections::HashMap;

use crf_search::api::{Price, ResultItem, Robot, SearchResults};
use crf_search::proxy::{begin_search, finish_search, BodyKind, Method, ProxyStep, SearchFailure};
use crf_search::robot::{RobotComponent, RobotProperties};
use crf_search::root::{RootComponent, RootView, EMPTY_MESSAGE};

fn item(id: &str, name: &str, creator: &str) -> ResultItem {
    let mut blocks = HashMap::new();
    blocks.insert(1, 20);
    ResultItem {
        robot: Robot {
            id: id.to_string(),
            name: name.to_string(),
            creatorId: format!("{}-creator", id),
            creatorName: creator.to_string(),
            image: format!("https://img/{}.png", id),
            baseCpu: 100,
            weaponCpu: 40,
            cosmeticCpu: 5,
            clusterCount: 3,
            blockCounts: blocks,
            materialsUsed: vec![1, 2],
        },
        prices: vec![Price { currency: 0, amount: 500 }, Price { currency: 1, amount: 7 }],
    }
}

fn keys(view: RootView) -> Option<Vec<String>> {
    match view {
        RootView::Empty(_) => None,
        RootView::Listing(k) => Some(k),
    }
}

#[test]
fn fresh_page_shows_empty_message() {
    let root = RootComponent::create();
    assert!(root.results().is_empty());
    match root.view() {
        RootView::Empty(m) => assert_eq!(m, EMPTY_MESSAGE),
        RootView::Listing(_) => panic!("expected the empty state"),
    }
}

#[test]
fn search_replaces_listing_even_when_empty() {
    let mut root = RootComponent::create();
    root.update(SearchResults { results: vec![item("a", "Spider", "Bob"), item("b", "Crab", "Eve")] });
    assert_eq!(keys(root.view()), Some(vec!["a".to_string(), "b".to_string()]));
    root.update(SearchResults { results: vec![item("c", "Tank", "Ann")] });
    assert_eq!(keys(root.view()), Some(vec!["c".to_string()]));
    root.update(SearchResults { results: vec![] });
    match root.view() {
        RootView::Empty(m) => assert_eq!(m, "Search for robots from the CRF2"),
        RootView::Listing(_) => panic!("expected the empty state"),
    }
}

#[test]
fn card_shows_robot_without_prices() {
    let props = RobotProperties { robot: item("a", "Spider", "Bob") };
    let card = RobotComponent::create().view(&props);
    assert_eq!(card.alt, "Spider by Bob");
    assert_eq!(card.name, "Spider");
    assert_eq!(card.id, "a");
    assert_eq!(card.creator_id, "a-creator");
    assert_eq!(card.creator_name, "Bob");
    assert_eq!(card.image, "https://img/a.png");
    assert_eq!((card.base_cpu, card.weapon_cpu, card.cosmetic_cpu, card.cluster_count), (100, 40, 5, 3));
    assert!(card.prices.is_empty());
}

#[test]
fn card_shows_prices_when_enabled() {
    let props = RobotProperties { robot: item("a", "Spider", "Bob") };
    let card = RobotComponent { show_prices: true }.view(&props);
    assert_eq!(card.prices, vec![Price { currency: 0, amount: 500 }, Price { currency: 1, amount: 7 }]);
}

#[test]
fn malformed_filter_is_answered_without_a_call() {
    for method in [Method::Get, Method::Post] {
        match begin_search::<u32>(method, None) {
            ProxyStep::Reply(r) => {
                assert_eq!(r.status, 400);
                assert_eq!(r.kind, BodyKind::Empty);
                assert!(r.body.is_empty());
            },
            ProxyStep::Call(_) => panic!("a malformed filter reached the marketplace"),
        }
    }
}

#[test]
fn readable_filter_is_passed_on() {
    match begin_search(Method::Post, Some(17u32)) {
        ProxyStep::Call(p) => assert_eq!(p, 17),
        ProxyStep::Reply(_) => panic!("expected a call"),
    }
}

#[test]
fn found_results_are_sent_as_json() {
    let body = "{\"results\":[]}".to_string();
    let get = finish_search(Method::Get, Ok(body.clone()));
    let post = finish_search(Method::Post, Ok(body.clone()));
    assert_eq!(get.status, 200);
    assert_eq!(get.kind, BodyKind::Json);
    assert_eq!(get.body, body);
    assert_eq!((post.status, post.kind, post.body), (get.status, get.kind, get.body));
}

#[test]
fn transport_failure_is_500_without_body() {
    let r = finish_search(Method::Get, Err(SearchFailure::Protocol("connection refused".to_string())));
    assert_eq!(r.status, 500);
    assert_eq!(r.kind, BodyKind::Empty);
    assert!(r.body.is_empty());
}

#[test]
fn upstream_envelope_is_400_passthrough() {
    let envelope = "{\"error\":3,\"errorMessage\":\"bad sort\"}".to_string();
    let r = finish_search(Method::Post, Err(SearchFailure::Response(envelope.clone())));
    assert_eq!(r.status, 400);
    assert_eq!(r.kind, BodyKind::Json);
    assert_eq!(r.body, envelope);
}

#[test]
fn upstream_status_is_passed_on() {
    let r = finish_search(Method::Get, Err(SearchFailure::ResponseCode("service unavailable".to_string(), 503)));
    assert_eq!(r.status, 503);
    assert_eq!(r.kind, BodyKind::Text);
    assert_eq!(r.body, "service unavailable");
}
