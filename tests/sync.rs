use discord_announcements::{
    confirm_write, fan_out, Announcement, Author, Content, DbError, DbFeed, Feed, FeedError, Link, MyError, Store,
    Subscription, SyncOutcome, Timestamp,
};

fn ts(secs: i64) -> Timestamp {
    Timestamp { secs, nanos: 0 }
}

fn announcement(title: &str, published: Timestamp) -> Announcement {
    Announcement {
        title: title.to_string(),
        id: format!("tag:{title}"),
        updated: published,
        published,
        link: Link { rel: "alternate".to_string(), href: format!("https://x/{title}") },
        author: Author { name: "Ada".to_string() },
        content: Content { content_type: "html".to_string(), content: String::new() },
    }
}

fn feed(id: &str, published: &[(&str, i64)]) -> Feed {
    Feed {
        xmlns: String::new(),
        id: id.to_string(),
        title: format!("Title of {id}"),
        updated: ts(0),
        link: Link { rel: "self".to_string(), href: format!("https://x/{id}") },
        announcements: published.iter().map(|(t, p)| announcement(t, ts(*p))).collect(),
    }
}

/// A store tracking the feeds `ids`, each with a subscriber, and checkpoints `checkpoints`.
fn store_with(ids: &[&str], checkpoints: &[i64]) -> Store {
    let mut store = Store::new();
    for (i, id) in ids.iter().enumerate() {
        let r = Subscription::add(&mut store, "S", &format!("C{i}"), &format!("https://x/{id}"), Ok(feed(id, &[])));
        assert!(r.is_ok());
        store.set_checkpoint((i + 1) as i32, ts(checkpoints[i])).unwrap();
    }
    store
}

fn checkpoint(store: &Store, i: usize) -> Timestamp {
    DbFeed::get_all(store)[i].last_update
}

fn titles(a: &[Announcement]) -> Vec<String> {
    a.iter().map(|x| x.title.clone()).collect()
}

#[test]
fn sync_reports_new_announcements_then_unchanged() {
    let t0 = 1_000;
    let mut store = store_with(&["f"], &[t0]);
    let remote = || vec![Ok(feed("f", &[("old", t0 - 1), ("n1", t0 + 1), ("n2", t0 + 2)]))];
    let out = Feed::get_new(&mut store, remote());
    assert_eq!(out.len(), 1);
    match &out[0] {
        SyncOutcome::Updated { feed_id, announcements, checkpoint } => {
            assert_eq!(*feed_id, 1);
            assert_eq!(titles(announcements), vec!["n1", "n2"]);
            assert_eq!(*checkpoint, ts(t0 + 2));
        }
        other => panic!("unexpected {other:?}"),
    }
    assert_eq!(checkpoint(&store, 0), ts(t0 + 2));
    let again = Feed::get_new(&mut store, remote());
    assert!(matches!(again[0], SyncOutcome::Unchanged { feed_id: 1 }));
    assert_eq!(checkpoint(&store, 0), ts(t0 + 2));
}

#[test]
fn sync_never_moves_checkpoint_back() {
    let mut store = store_with(&["f"], &[500]);
    let out = Feed::get_new(&mut store, vec![Ok(feed("f", &[("a", 100), ("b", 499), ("c", 500)]))]);
    assert!(matches!(out[0], SyncOutcome::Unchanged { feed_id: 1 }));
    assert_eq!(checkpoint(&store, 0), ts(500));
    let out = Feed::get_new(&mut store, vec![Ok(feed("f", &[("d", 600)]))]);
    assert!(matches!(out[0], SyncOutcome::Updated { .. }));
    assert_eq!(checkpoint(&store, 0), ts(600));
    let out = Feed::get_new(&mut store, vec![Ok(feed("f", &[("e", 550)]))]);
    assert!(matches!(out[0], SyncOutcome::Unchanged { feed_id: 1 }));
    assert_eq!(checkpoint(&store, 0), ts(600));
}

#[test]
fn sync_isolates_a_failing_feed() {
    let mut store = store_with(&["a", "b", "c"], &[10, 10, 10]);
    let fetched = vec![
        Ok(feed("a", &[("a1", 11)])),
        Err(FeedError::Web("404 Not Found".to_string())),
        Ok(feed("c", &[("c1", 9)])),
    ];
    let out = Feed::get_new(&mut store, fetched);
    assert_eq!(out.len(), 3);
    assert!(matches!(&out[0], SyncOutcome::Updated { feed_id: 1, checkpoint, .. } if *checkpoint == ts(11)));
    match &out[1] {
        SyncOutcome::Failed { feed_id, error: MyError::Feed(FeedError::Web(m)) } => {
            assert_eq!(*feed_id, 2);
            assert_eq!(m, "404 Not Found");
        }
        other => panic!("unexpected {other:?}"),
    }
    assert!(matches!(out[2], SyncOutcome::Unchanged { feed_id: 3 }));
    assert_eq!(checkpoint(&store, 0), ts(11));
    assert_eq!(checkpoint(&store, 1), ts(10));
    assert_eq!(checkpoint(&store, 2), ts(10));
}

#[test]
fn sync_of_new_feed_from_epoch_takes_everything() {
    let mut store = Store::new();
    Subscription::add(&mut store, "S", "C", "https://x/f", Ok(feed("f", &[]))).unwrap();
    let out = Feed::get_new(&mut store, vec![Ok(feed("f", &[("a", 3), ("b", 7)]))]);
    assert!(matches!(&out[0], SyncOutcome::Updated { announcements, .. } if announcements.len() == 2));
    assert_eq!(checkpoint(&store, 0), ts(7));
}

#[test]
fn fan_out_attaches_subscribers_to_updated_feeds_only() {
    let mut store = store_with(&["a", "b"], &[0, 0]);
    Subscription::add(&mut store, "S2", "X", "https://x/a", Ok(feed("a", &[]))).unwrap();
    let fetched = vec![Ok(feed("a", &[("a1", 5)])), Ok(feed("b", &[]))];
    let out = Feed::get_new(&mut store, fetched);
    let batches = fan_out(&store, out);
    assert_eq!(batches.len(), 1);
    assert_eq!(batches[0].feed_id, 1);
    assert_eq!(titles(&batches[0].announcements), vec!["a1"]);
    let subs: Vec<(String, String)> =
        batches[0].subscribers.iter().map(|c| (c.server_id.clone(), c.channel_id.clone())).collect();
    assert_eq!(subs, vec![("S".to_string(), "C0".to_string()), ("S2".to_string(), "X".to_string())]);
}

#[test]
fn fan_out_of_nothing_is_empty() {
    let store = Store::new();
    assert!(fan_out(&store, Vec::new()).is_empty());
}

#[test]
fn list_without_cutoff_keeps_everything_and_skips_failures() {
    let store = store_with(&["a", "b", "c"], &[100, 100, 100]);
    let fetched = vec![
        Ok(feed("a", &[("a1", 1), ("a2", 2)])),
        Err(FeedError::De("bad xml".to_string())),
        Ok(feed("c", &[])),
    ];
    let listing = Feed::get_all(&store, fetched, None);
    let batches = &listing.batches;
    assert_eq!(batches.len(), 2);
    assert_eq!(batches[0].feed_id, 1);
    assert_eq!(titles(&batches[0].announcements), vec!["a1", "a2"]);
    assert!(batches[0].subscribers.is_empty());
    assert_eq!(batches[1].feed_id, 3);
    assert!(batches[1].announcements.is_empty());
    assert_eq!(listing.failed.len(), 1);
    assert_eq!(listing.failed[0].0, 2);
    assert!(matches!(&listing.failed[0].1, MyError::Feed(FeedError::De(m)) if m == "bad xml"));
    assert_eq!(checkpoint(&store, 0), ts(100));
}

#[test]
fn list_with_cutoff_filters_and_drops_empty_feeds() {
    let store = store_with(&["a", "b"], &[0, 0]);
    let fetched = vec![Ok(feed("a", &[("a1", 1), ("a2", 20)])), Ok(feed("b", &[("b1", 5)]))];
    let listing = Feed::get_all(&store, fetched, Some(ts(10)));
    assert!(listing.failed.is_empty());
    let batches = listing.batches;
    assert_eq!(batches.len(), 1);
    assert_eq!(batches[0].feed_id, 1);
    assert_eq!(titles(&batches[0].announcements), vec!["a2"]);
}

#[test]
fn set_checkpoint_of_unknown_feed_is_not_found() {
    let mut store = store_with(&["a"], &[0]);
    assert!(matches!(store.set_checkpoint(2, ts(1)), Err(DbError::NotFound)));
    assert!(matches!(store.set_checkpoint(0, ts(1)), Err(DbError::NotFound)));
    assert_eq!(checkpoint(&store, 0), ts(0));
}

#[test]
fn failed_checkpoint_write_restores_and_fails() {
    let mut store = store_with(&["a", "b"], &[10, 10]);
    let out = Feed::get_new(
        &mut store,
        vec![Ok(feed("a", &[("a1", 20)])), Ok(feed("b", &[("b1", 30)]))],
    );
    let mut outs = out.into_iter();
    let first = confirm_write(&mut store, outs.next().unwrap(), ts(10), Err(DbError::ConnectionFailure("down".to_string())));
    assert!(matches!(first, SyncOutcome::Failed { feed_id: 1, error: MyError::Db(DbError::ConnectionFailure(_)) }));
    assert_eq!(checkpoint(&store, 0), ts(10));
    let second = confirm_write(&mut store, outs.next().unwrap(), ts(10), Ok(()));
    assert!(matches!(second, SyncOutcome::Updated { feed_id: 2, .. }));
    assert_eq!(checkpoint(&store, 1), ts(30));
    let again = Feed::get_new(&mut store, vec![Ok(feed("a", &[("a1", 20)])), Ok(feed("b", &[("b1", 30)]))]);
    assert!(matches!(&again[0], SyncOutcome::Updated { feed_id: 1, announcements, .. } if announcements.len() == 1));
    assert!(matches!(again[1], SyncOutcome::Unchanged { feed_id: 2 }));
}

#[test]
fn confirm_write_passes_unchanged_outcomes() {
    let mut store = store_with(&["a"], &[10]);
    let r = confirm_write(&mut store, SyncOutcome::Unchanged { feed_id: 1 }, ts(3), Err(DbError::Empty));
    assert!(matches!(r, SyncOutcome::Unchanged { feed_id: 1 }));
    assert_eq!(checkpoint(&store, 0), ts(10));
}
