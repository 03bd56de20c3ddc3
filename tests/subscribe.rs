use discord_announcements::{
    Channel, DbBackupFeed, DbError, DbFeed, Feed, FeedError, Link, MyError, NewBackupFeed, NewFeed, NewSubsription, Store,
    SubscribeResponse, Subscription, Timestamp,
};

fn feed(id: &str, title: &str) -> Feed {
    Feed {
        xmlns: String::new(),
        id: id.to_string(),
        title: title.to_string(),
        updated: Timestamp::epoch(),
        link: Link { rel: "self".to_string(), href: String::new() },
        announcements: Vec::new(),
    }
}

fn channels(store: &Store, feed_id: i32) -> Vec<(String, String)> {
    store
        .list_subscribers(feed_id)
        .iter()
        .map(|c| (c.server_id.clone(), c.channel_id.clone()))
        .collect()
}

#[test]
fn subscribe_twice_is_already_subscribed() {
    let mut store = Store::new();
    let first = Subscription::add(&mut store, "S", "C", "https://x/feed", Ok(feed("canon", "Algebra")));
    assert_eq!(first.unwrap(), "Algebra");
    let rows = DbFeed::get_all(&store);
    assert_eq!(rows.len(), 1);
    assert_eq!(rows[0].id, 1);
    assert_eq!(rows[0].canvas_id, "canon");
    assert_eq!(rows[0].url, "https://x/feed");
    assert_eq!(rows[0].last_update, Timestamp::epoch());
    assert_eq!(channels(&store, 1), vec![("S".to_string(), "C".to_string())]);

    let second = Subscription::add(&mut store, "S", "C", "https://x/feed", Ok(feed("canon", "Algebra")));
    assert!(matches!(second, Err(MyError::Db(DbError::UniqueViolation))));
    assert_eq!(DbFeed::get_all(&store).len(), 1);
    assert_eq!(channels(&store, 1).len(), 1);
    assert!(DbBackupFeed::get_all(&store).is_empty());
}

#[test]
fn subscribe_other_channel_reuses_tracked_feed() {
    let mut store = Store::new();
    Subscription::add(&mut store, "S", "C", "https://x/feed", Ok(feed("canon", "A"))).unwrap();
    Subscription::add(&mut store, "S", "D", "https://mirror/feed", Ok(feed("canon", "A"))).unwrap();
    let rows = DbFeed::get_all(&store);
    assert_eq!(rows.len(), 1);
    assert_eq!(rows[0].url, "https://x/feed");
    let backups = DbBackupFeed::get_all(&store);
    assert_eq!(backups.len(), 1);
    assert_eq!(backups[0].id, 1);
    assert_eq!(backups[0].feed_id, 1);
    assert_eq!(backups[0].url, "https://mirror/feed");
    Subscription::add(&mut store, "S", "E", "https://mirror/feed", Ok(feed("canon", "A"))).unwrap();
    Subscription::add(&mut store, "S", "F", "https://x/feed", Ok(feed("canon", "A"))).unwrap();
    assert_eq!(DbBackupFeed::get_all(&store).len(), 1);
    assert_eq!(
        channels(&store, 1)[..2].to_vec(),
        vec![("S".to_string(), "C".to_string()), ("S".to_string(), "D".to_string())]
    );
}

#[test]
fn subscribe_with_failed_fetch_changes_nothing() {
    let mut store = Store::new();
    let r = Subscription::add(
        &mut store,
        "S",
        "C",
        "not a url",
        Err(FeedError::InvalidFeedUrl("relative URL without a base".to_string())),
    );
    assert!(matches!(r, Err(MyError::Feed(FeedError::InvalidFeedUrl(_)))));
    assert!(DbFeed::get_all(&store).is_empty());
}

#[test]
fn feed_add_finds_or_creates() {
    let mut store = Store::new();
    assert_eq!(Feed::add(&mut store, &feed("a", "A"), "https://x/a").unwrap(), 1);
    assert_eq!(Feed::add(&mut store, &feed("b", "B"), "https://x/b").unwrap(), 2);
    assert_eq!(Feed::add(&mut store, &feed("a", "A"), "https://y/a").unwrap(), 1);
    assert_eq!(DbFeed::get_all(&store).len(), 2);
}

#[test]
fn get_by_canvas_id_finds_row_or_not_found() {
    let mut store = Store::new();
    Feed::add(&mut store, &feed("a", "A"), "https://x/a").unwrap();
    assert_eq!(DbFeed::get_by_canvas_id("a", &store).unwrap().id, 1);
    assert!(matches!(DbFeed::get_by_canvas_id("z", &store), Err(DbError::NotFound)));
}

#[test]
fn insert_feed_rejects_duplicate_canonical_id() {
    let mut store = Store::new();
    let new = NewFeed { canvas_id: "a", url: "u", last_update: Timestamp::epoch() };
    assert_eq!(store.insert_feed(new).unwrap(), 1);
    let again = NewFeed { canvas_id: "a", url: "v", last_update: Timestamp::epoch() };
    assert!(matches!(store.insert_feed(again), Err(DbError::UniqueViolation)));
}

#[test]
fn insert_subscription_needs_tracked_feed() {
    let mut store = Store::new();
    let s = NewSubsription { server_id: "S", channel_id: "C", feed_id: 1 };
    assert!(matches!(store.insert_subscription(s), Err(DbError::NotFound)));
}

#[test]
fn responses_map_errors_to_fixed_texts() {
    let ok = SubscribeResponse::from_result(&Ok("Algebra".to_string()));
    assert!(ok.success);
    assert_eq!(ok.message, "Placed a subscription for 'Algebra'");
    let cases = [
        (MyError::Feed(FeedError::InvalidFeedUrl("x".into())), "Looks like you passed an invalid feed url"),
        (MyError::Feed(FeedError::De("x".into())), "Failed to read the url as a announcement feed"),
        (MyError::Db(DbError::UniqueViolation), "This channel is already subscribed to that feed"),
        (MyError::Db(DbError::ConnectionFailure("postgres://secret".into())), "Oops something went wrong"),
        (MyError::Feed(FeedError::Web("timeout".into())), "Oops something went wrong"),
        (MyError::new("internal"), "Oops something went wrong"),
    ];
    for (err, text) in cases {
        let r = SubscribeResponse::from_result(&Err(err));
        assert!(!r.success);
        assert_eq!(r.message, text);
    }
}

#[test]
fn error_constructors_and_messages() {
    assert!(matches!(MyError::new("boom"), MyError::Generic(m) if m == "boom"));
    assert!(matches!(MyError::empty(), MyError::Empty));
    assert!(matches!(DbError::new("d"), DbError::Generic(m) if m == "d"));
    assert!(matches!(DbError::empty("e"), DbError::Generic(m) if m == "e"));
    assert!(matches!(FeedError::new("f"), FeedError::Generic(m) if m == "f"));
    assert_eq!(MyError::Db(DbError::NotFound).message(), "Error: DB error: not found");
    assert_eq!(MyError::Feed(FeedError::De("eof".into())).message(), "Error: Feed deserialization error: eof");
    assert_eq!(MyError::Empty.message(), "Error");
    assert_eq!(MyError::Db(DbError::Empty).description(), "DbError");
    assert_eq!(FeedError::Web("404".into()).description(), "404");
    assert_eq!(DbError::NotFound.description(), "not found");
    assert!(matches!(MyError::from(DbError::NotFound), MyError::Db(DbError::NotFound)));
    assert!(matches!(MyError::from(FeedError::Empty), MyError::Feed(FeedError::Empty)));
}

#[test]
fn channel_new_keeps_ids() {
    let c = Channel::new("S".to_string(), "C".to_string());
    assert_eq!(c.server_id, "S");
    assert_eq!(c.channel_id, "C");
}

#[test]
fn insert_backup_feed_rejects_unknown_feed_and_duplicates() {
    let mut store = Store::new();
    let b = NewBackupFeed { feed_id: 1, url: "u" };
    assert!(matches!(store.insert_backup_feed(b), Err(DbError::NotFound)));
    Feed::add(&mut store, &feed("a", "A"), "https://x/a").unwrap();
    assert_eq!(store.insert_backup_feed(NewBackupFeed { feed_id: 1, url: "u" }).unwrap(), 1);
    assert!(matches!(
        store.insert_backup_feed(NewBackupFeed { feed_id: 1, url: "u" }),
        Err(DbError::UniqueViolation)
    ));
}

#[test]
fn subscribe_reports_network_failure_as_invalid_url() {
    let mut store = Store::new();
    let r = Subscription::add(&mut store, "S", "C", "https://x/gone", Err(FeedError::Web("404 Not Found".to_string())));
    assert!(matches!(&r, Err(MyError::Feed(FeedError::InvalidFeedUrl(m))) if m == "404 Not Found"));
    assert_eq!(SubscribeResponse::from_result(&r).message, "Looks like you passed an invalid feed url");
    let r = Subscription::add(&mut store, "S", "C", "https://x/page", Err(FeedError::De("not atom".to_string())));
    assert!(matches!(&r, Err(MyError::Feed(FeedError::De(m))) if m == "not atom"));
    assert_eq!(SubscribeResponse::from_result(&r).message, "Failed to read the url as a announcement feed");
    assert!(DbFeed::get_all(&store).is_empty());
}
