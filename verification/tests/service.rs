use article_store::article::{Article, ArticleCreated, ArticleUpdated};
use article_store::error::ArticleError;
use article_store::event::{ArticleEvent, Event};
use article_store::service::{
    ArticleService, ARTICLE_MEM_ID, EVENT_DATA_MEM_ID, EVENT_IDX_MEM_ID,
};

fn article(article_id: u128, version: u64, title: &str, body: &str) -> Article {
    Article { article_id, version, title: title.to_string(), body: body.to_string() }
}

fn created(article_id: u128, title: &str, body: &str) -> Event {
    Event::ArticleEvent(ArticleEvent::ArticleCreated(ArticleCreated {
        article_id,
        version: u64::MAX,
        title: title.to_string(),
        body: body.to_string(),
    }))
}

fn updated(article_id: u128, version: u64, title: &str, body: &str) -> Event {
    Event::ArticleEvent(ArticleEvent::ArticleUpdated(ArticleUpdated {
        article_id,
        version,
        title: title.to_string(),
        body: body.to_string(),
    }))
}

fn service() -> ArticleService {
    ArticleService::init().unwrap()
}

#[test]
fn fresh_service_is_empty() {
    let service = service();
    assert_eq!(service.event_count(), 0);
    assert_eq!(service.get(1), None);
    assert_eq!(service.get_event(0), None);
}

#[test]
fn example_scenario() {
    let mut service = service();
    assert_eq!(service.create(1, "Hello".to_string(), "World".to_string()), Ok(()));
    assert_eq!(service.get(1), Some(article(1, 0, "Hello", "World")));
    assert_eq!(service.get_event(0), Some(created(1, "Hello", "World")));

    assert_eq!(service.update(1, "Hello2".to_string(), "World2".to_string()), Ok(()));
    assert_eq!(service.get(1), Some(article(1, 1, "Hello2", "World2")));
    assert_eq!(service.get_event(1), Some(updated(1, 0, "Hello2", "World2")));

    assert_eq!(service.update(999, "x".to_string(), "y".to_string()), Err(ArticleError::NotFound));
    assert_eq!(service.get_event(2), None);
}

#[test]
fn create_stores_version_zero_and_logs_the_event() {
    let mut service = service();
    for id in [0u128, 1, 17, u128::MAX] {
        let index = service.event_count();
        assert_eq!(service.create(id, format!("title {id}"), format!("body {id}")), Ok(()));
        assert_eq!(
            service.get(id),
            Some(article(id, 0, &format!("title {id}"), &format!("body {id}")))
        );
        assert_eq!(
            service.get_event(index),
            Some(created(id, &format!("title {id}"), &format!("body {id}")))
        );
        assert_eq!(service.event_count(), index + 1);
    }
}

#[test]
fn create_over_an_existing_article_replaces_it() {
    let mut service = service();
    assert_eq!(service.create(1, "first".to_string(), "one".to_string()), Ok(()));
    assert_eq!(service.update(1, "second".to_string(), "two".to_string()), Ok(()));
    assert_eq!(service.create(1, "third".to_string(), "three".to_string()), Ok(()));
    assert_eq!(service.get(1), Some(article(1, 0, "third", "three")));
    assert_eq!(service.event_count(), 3);
    assert_eq!(service.get_event(0), Some(created(1, "first", "one")));
    assert_eq!(service.get_event(2), Some(created(1, "third", "three")));
}

#[test]
fn successive_updates_count_the_version() {
    let mut service = service();
    assert_eq!(service.create(4, "start".to_string(), "text".to_string()), Ok(()));
    let rounds = 25u64;
    for round in 1..=rounds {
        assert_eq!(service.update(4, format!("title {round}"), format!("body {round}")), Ok(()));
        assert_eq!(
            service.get(4),
            Some(article(4, round, &format!("title {round}"), &format!("body {round}")))
        );
    }
    assert_eq!(service.get(4), Some(article(4, 25, "title 25", "body 25")));
    assert_eq!(service.event_count(), rounds + 1);
    for round in 1..=rounds {
        assert_eq!(
            service.get_event(round),
            Some(updated(4, round - 1, &format!("title {round}"), &format!("body {round}")))
        );
    }
}

#[test]
fn updates_leave_other_articles_alone() {
    let mut service = service();
    assert_eq!(service.create(1, "one".to_string(), "1".to_string()), Ok(()));
    assert_eq!(service.create(2, "two".to_string(), "2".to_string()), Ok(()));
    assert_eq!(service.update(2, "zwei".to_string(), "2".to_string()), Ok(()));
    assert_eq!(service.get(1), Some(article(1, 0, "one", "1")));
    assert_eq!(service.get(2), Some(article(2, 1, "zwei", "2")));
}

#[test]
fn events_of_all_articles_share_one_order() {
    let mut service = service();
    assert_eq!(service.create(1, "a".to_string(), "".to_string()), Ok(()));
    assert_eq!(service.create(2, "b".to_string(), "".to_string()), Ok(()));
    assert_eq!(service.update(1, "c".to_string(), "".to_string()), Ok(()));
    assert_eq!(service.update(2, "d".to_string(), "".to_string()), Ok(()));
    assert_eq!(service.update(1, "e".to_string(), "".to_string()), Ok(()));
    assert_eq!(service.get_event(0), Some(created(1, "a", "")));
    assert_eq!(service.get_event(1), Some(created(2, "b", "")));
    assert_eq!(service.get_event(2), Some(updated(1, 0, "c", "")));
    assert_eq!(service.get_event(3), Some(updated(2, 0, "d", "")));
    assert_eq!(service.get_event(4), Some(updated(1, 1, "e", "")));
    assert_eq!(service.get_event(5), None);
    assert_eq!(service.get_event(u64::MAX), None);
}

#[test]
fn update_of_unknown_id_changes_nothing() {
    let mut service = service();
    assert_eq!(service.update(1, "x".to_string(), "y".to_string()), Err(ArticleError::NotFound));
    assert_eq!(service.event_count(), 0);
    assert_eq!(service.get(1), None);

    assert_eq!(service.create(1, "Hello".to_string(), "World".to_string()), Ok(()));
    assert_eq!(service.update(2, "x".to_string(), "y".to_string()), Err(ArticleError::NotFound));
    assert_eq!(service.event_count(), 1);
    assert_eq!(service.get(1), Some(article(1, 0, "Hello", "World")));
    assert_eq!(service.get(2), None);
    assert_eq!(service.get_event(1), None);
}

#[test]
fn create_at_the_size_bound_succeeds() {
    let mut service = service();
    let title = "t".repeat(1000);
    let body = "b".repeat(959);
    assert_eq!(article(1, 0, &title, &body).to_bytes().len(), 2000);
    assert_eq!(service.create(1, title.clone(), body.clone()), Ok(()));
    assert_eq!(service.get(1), Some(article(1, 0, &title, &body)));
    assert_eq!(service.get_event(0), Some(created(1, &title, &body)));
}

#[test]
fn create_beyond_the_size_bound_changes_nothing() {
    let mut service = service();
    let title = "t".repeat(1000);
    let body = "b".repeat(960);
    assert_eq!(article(1, 0, &title, &body).to_bytes().len(), 2001);
    assert_eq!(service.create(1, title, body), Err(ArticleError::SizeExceeded));
    assert_eq!(service.event_count(), 0);
    assert_eq!(service.get(1), None);
    assert_eq!(service.get_event(0), None);
}

#[test]
fn update_at_the_size_bound_succeeds() {
    let mut service = service();
    assert_eq!(service.create(1, "small".to_string(), "article".to_string()), Ok(()));
    let title = "t".repeat(1959);
    assert_eq!(service.update(1, title.clone(), String::new()), Ok(()));
    assert_eq!(service.get(1), Some(article(1, 1, &title, "")));
    assert_eq!(service.get_event(1), Some(updated(1, 0, &title, "")));
}

#[test]
fn update_beyond_the_size_bound_changes_nothing() {
    let mut service = service();
    assert_eq!(service.create(1, "small".to_string(), "article".to_string()), Ok(()));
    let title = "t".repeat(1960);
    assert_eq!(service.update(1, title, String::new()), Err(ArticleError::SizeExceeded));
    assert_eq!(service.event_count(), 1);
    assert_eq!(service.get(1), Some(article(1, 0, "small", "article")));
    assert_eq!(service.get_event(1), None);
}

#[test]
fn not_found_comes_before_size_exceeded() {
    let mut service = service();
    let title = "t".repeat(5000);
    assert_eq!(service.update(1, title, String::new()), Err(ArticleError::NotFound));
}

#[test]
fn update_at_the_largest_version_is_refused() {
    let (log, mut store) = service().into_parts();
    assert_eq!(store.put(1, &article(1, u64::MAX, "last", "version")), Ok(()));
    let mut service = ArticleService::from_parts(log, store);
    assert_eq!(
        service.update(1, "one".to_string(), "more".to_string()),
        Err(ArticleError::VersionExhausted)
    );
    assert_eq!(service.get(1), Some(article(1, u64::MAX, "last", "version")));
    assert_eq!(service.event_count(), 0);
}

#[test]
fn update_reaches_the_largest_version() {
    let (log, mut store) = service().into_parts();
    assert_eq!(store.put(1, &article(1, u64::MAX - 1, "almost", "there")), Ok(()));
    let mut service = ArticleService::from_parts(log, store);
    assert_eq!(service.update(1, "one".to_string(), "more".to_string()), Ok(()));
    assert_eq!(service.get(1), Some(article(1, u64::MAX, "one", "more")));
    assert_eq!(service.get_event(0), Some(updated(1, u64::MAX - 1, "one", "more")));
}

#[test]
fn update_keeps_the_stored_id() {
    let (log, mut store) = service().into_parts();
    assert_eq!(store.put(1, &article(50, 3, "stored", "elsewhere")), Ok(()));
    let mut service = ArticleService::from_parts(log, store);
    assert_eq!(service.update(1, "t".to_string(), "b".to_string()), Ok(()));
    assert_eq!(service.get(1), Some(article(50, 4, "t", "b")));
    assert_eq!(service.get_event(0), Some(updated(50, 3, "t", "b")));
}

#[test]
fn reads_repeat() {
    let mut service = service();
    assert_eq!(service.create(1, "Hello".to_string(), "World".to_string()), Ok(()));
    assert_eq!(service.update(1, "Hello2".to_string(), "World2".to_string()), Ok(()));
    let first = service.get(1);
    let first_event = service.get_event(1);
    for _ in 0..10 {
        assert_eq!(service.get(1), first);
        assert_eq!(service.get_event(1), first_event);
        assert_eq!(service.get(2), None);
        assert_eq!(service.get_event(2), None);
        assert_eq!(service.event_count(), 2);
    }
    assert_eq!(first, Some(article(1, 1, "Hello2", "World2")));
}

#[test]
fn unicode_text_survives_storage() {
    let mut service = service();
    assert_eq!(service.create(8, "Grüße".to_string(), "日本語 🦀".to_string()), Ok(()));
    assert_eq!(service.get(8), Some(article(8, 0, "Grüße", "日本語 🦀")));
    assert_eq!(service.get_event(0), Some(created(8, "Grüße", "日本語 🦀")));
}

#[test]
fn many_articles_are_kept_apart() {
    let mut service = service();
    for id in 0..200u128 {
        assert_eq!(service.create(id * 7919, format!("t{id}"), format!("b{id}")), Ok(()));
    }
    for id in 0..200u128 {
        assert_eq!(
            service.get(id * 7919),
            Some(article(id * 7919, 0, &format!("t{id}"), &format!("b{id}")))
        );
    }
    assert_eq!(service.get(1), None);
    assert_eq!(service.event_count(), 200);
}

#[test]
fn services_do_not_share_state() {
    let mut first = service();
    let second = service();
    assert_eq!(first.create(1, "Hello".to_string(), "World".to_string()), Ok(()));
    assert_eq!(second.get(1), None);
    assert_eq!(second.event_count(), 0);
}

#[test]
fn memory_regions_are_distinct() {
    assert_eq!(ARTICLE_MEM_ID, 0);
    assert_eq!(EVENT_IDX_MEM_ID, 1);
    assert_eq!(EVENT_DATA_MEM_ID, 2);
}

#[test]
fn replay_gives_what_the_snapshots_hold() {
    let mut service = service();
    assert_eq!(service.create(1, "a".to_string(), "1".to_string()), Ok(()));
    assert_eq!(service.create(2, "b".to_string(), "2".to_string()), Ok(()));
    assert_eq!(service.update(1, "c".to_string(), "3".to_string()), Ok(()));
    assert_eq!(service.update(1, "d".to_string(), "4".to_string()), Ok(()));
    assert_eq!(service.update(3, "x".to_string(), "y".to_string()), Err(ArticleError::NotFound));
    assert_eq!(service.create(2, "e".to_string(), "5".to_string()), Ok(()));
    assert_eq!(service.update(2, "f".to_string(), "6".to_string()), Ok(()));
    for id in 0..5u128 {
        assert_eq!(service.replay(id), service.get(id));
    }
    assert_eq!(service.replay(1), Some(article(1, 2, "d", "4")));
    assert_eq!(service.replay(2), Some(article(2, 1, "f", "6")));
    assert_eq!(service.replay(3), None);
}

#[test]
fn replay_rebuilds_a_lost_snapshot() {
    let mut service = service();
    assert_eq!(service.create(1, "Hello".to_string(), "World".to_string()), Ok(()));
    assert_eq!(service.update(1, "Hello2".to_string(), "World2".to_string()), Ok(()));
    let (log, mut store) = service.into_parts();
    store.delete(1);
    let service = ArticleService::from_parts(log, store);
    assert_eq!(service.get(1), None);
    assert_eq!(service.replay(1), Some(article(1, 1, "Hello2", "World2")));
}
