//! Subscribing a channel to a feed: find or create the tracked feed by its
//! canonical id, then register the channel, once.

use vstd::prelude::*;

use crate::canvas::Feed;
use crate::db::{
    is_backup, is_subscribed, links, tracks, DbFeed, NewBackupFeed, NewFeed, NewSubsription, Store,
    Subscription, MAX_ROWS,
};
use crate::error::{DbError, FeedError, MyError};
use crate::rfc3339_time::Timestamp;

verus! {

/// The row of the feed tracked under canonical id `cid` in `feeds`.
pub open spec fn row_of(feeds: Seq<DbFeed>, cid: Seq<char>) -> DbFeed {
    feeds[choose|i: int| 0 <= i < feeds.len() && (#[trigger] feeds[i]).canvas_id@ == cid]
}

/// The id of the feed tracked under canonical id `cid` in `feeds`.
pub open spec fn id_of(feeds: Seq<DbFeed>, cid: Seq<char>) -> i32 {
    row_of(feeds, cid).id
}

/// `url` is already known for the feed tracked under `cid` in `s`: as the
/// url it is fetched from, or as a further url.
pub open spec fn known_url(s: Store, cid: Seq<char>, url: Seq<char>) -> bool {
    row_of(s.feeds(), cid).url@ == url || is_backup(s.backup_feeds(), id_of(s.feeds(), cid), url)
}

/// The feeds and further urls of `new` are those of `old` after making sure
/// canonical id `cid`, fetched from `url`, is tracked, and `r` is the
/// outcome. A canonical id that is tracked already keeps its row, and an
/// unknown `url` is recorded as a further url of it, room permitting. A new
/// canonical id is tracked from the epoch, so that its existing
/// announcements count as seen.
pub open spec fn tracked_after(
    old: Store,
    new: Store,
    cid: Seq<char>,
    url: Seq<char>,
    r: Result<i32, DbError>,
) -> bool {
    let feeds = old.feeds();
    if tracks(feeds, cid) {
        &&& new.feeds() == feeds
        &&& r == Ok::<i32, DbError>(id_of(feeds, cid))
        &&& if known_url(old, cid, url) || old.backup_feeds().len() >= MAX_ROWS {
            new.backup_feeds() == old.backup_feeds()
        } else {
            &&& new.backup_feeds().len() == old.backup_feeds().len() + 1
            &&& new.backup_feeds().drop_last() == old.backup_feeds()
            &&& new.backup_feeds().last().id as int == old.backup_feeds().len() + 1
            &&& new.backup_feeds().last().feed_id == id_of(feeds, cid)
            &&& new.backup_feeds().last().url@ == url
        }
    } else if feeds.len() >= MAX_ROWS {
        &&& new.feeds() == feeds
        &&& new.backup_feeds() == old.backup_feeds()
        &&& r matches Err(DbError::Generic(_))
    } else {
        &&& r == Ok::<i32, DbError>((feeds.len() + 1) as i32)
        &&& new.feeds().len() == feeds.len() + 1
        &&& new.feeds().drop_last() == feeds
        &&& new.feeds().last().id as int == feeds.len() + 1
        &&& new.feeds().last().canvas_id@ == cid
        &&& new.feeds().last().url@ == url
        &&& new.feeds().last().last_update == (Timestamp { secs: 0, nanos: 0 })
        &&& new.backup_feeds() == old.backup_feeds()
    }
}

/// How a failed fetch is reported to whoever subscribes: a network or HTTP
/// failure means the url does not lead to a feed; a document that is not a
/// feed stays a deserialization failure.
pub open spec fn subscribe_error(e: FeedError) -> FeedError {
    match e {
        FeedError::Web(m) => FeedError::InvalidFeedUrl(m),
        _ => e,
    }
}

/// `new` is `old` after subscribing `channel` to the feed that the source at
/// `url` returned as `fetched`, and `r` is the outcome.
pub open spec fn subscribed_after(
    old: Store,
    new: Store,
    channel: (Seq<char>, Seq<char>),
    url: Seq<char>,
    fetched: Result<Feed, FeedError>,
    r: Result<String, MyError>,
) -> bool {
    match fetched {
        Err(e) => {
            &&& r == Err::<String, MyError>(MyError::Feed(subscribe_error(e)))
            &&& new.feeds() == old.feeds()
            &&& new.backup_feeds() == old.backup_feeds()
            &&& new.subscriptions() == old.subscriptions()
        },
        Ok(f) => {
            let cid = f.id@;
            if !tracks(old.feeds(), cid) && old.feeds().len() >= MAX_ROWS {
                &&& r matches Err(MyError::Db(DbError::Generic(_)))
                &&& new.feeds() == old.feeds()
                &&& new.backup_feeds() == old.backup_feeds()
                &&& new.subscriptions() == old.subscriptions()
            } else {
                let fid = id_of(new.feeds(), cid);
                &&& tracked_after(old, new, cid, url, Ok(fid))
                &&& if is_subscribed(old.subscriptions(), fid, channel) {
                    &&& r == Err::<String, MyError>(MyError::Db(DbError::UniqueViolation))
                    &&& new.subscriptions() == old.subscriptions()
                } else if old.subscriptions().len() >= MAX_ROWS {
                    &&& r matches Err(MyError::Db(DbError::Generic(_)))
                    &&& new.subscriptions() == old.subscriptions()
                } else {
                    &&& r matches Ok(title) && title@ == f.title@
                    &&& new.subscriptions().len() == old.subscriptions().len() + 1
                    &&& new.subscriptions().drop_last() == old.subscriptions()
                    &&& links(new.subscriptions().last(), fid, channel)
                }
            }
        },
    }
}

/// Subscribing the same channel to the same feed twice succeeds the first
/// time and yields `UniqueViolation` the second; the second call changes
/// nothing, and the feed is tracked exactly once. The first call succeeds
/// when the channel is not subscribed to that feed yet and the tables have
/// room for the rows it adds.
pub proof fn lemma_subscribe_twice(
    s0: Store,
    s1: Store,
    s2: Store,
    channel: (Seq<char>, Seq<char>),
    url: Seq<char>,
    f: Feed,
    r1: Result<String, MyError>,
    r2: Result<String, MyError>,
)
    requires
        s0.wf(),
        s1.wf(),
        subscribed_after(s0, s1, channel, url, Ok(f), r1),
        subscribed_after(s1, s2, channel, url, Ok(f), r2),
        !(tracks(s0.feeds(), f.id@) && is_subscribed(
            s0.subscriptions(),
            id_of(s0.feeds(), f.id@),
            channel,
        )),
        tracks(s0.feeds(), f.id@) || s0.feeds().len() < MAX_ROWS,
        s0.subscriptions().len() < MAX_ROWS,
    ensures
        r1 is Ok,
        r2 == Err::<String, MyError>(MyError::Db(DbError::UniqueViolation)),
        s2.feeds() == s1.feeds(),
        s2.backup_feeds() == s1.backup_feeds(),
        s2.subscriptions() == s1.subscriptions(),
        tracks(s2.feeds(), f.id@),
        forall|i: int, j: int|
            0 <= i < s2.feeds().len() && 0 <= j < s2.feeds().len() && s2.feeds()[i].canvas_id@ == f.id@
                && s2.feeds()[j].canvas_id@ == f.id@ ==> i == j,
{
    let cid = f.id@;
    let fid = id_of(s1.feeds(), cid);
    if tracks(s0.feeds(), cid) {
        assert(s1.feeds() == s0.feeds());
        if !(known_url(s0, cid, url) || s0.backup_feeds().len() >= MAX_ROWS) {
            let b = s1.backup_feeds();
            assert(b[b.len() - 1].feed_id == fid && b[b.len() - 1].url@ == url);
            assert(is_backup(b, fid, url));
        }
    } else {
        let n = s1.feeds().len();
        assert(s1.feeds()[n - 1].canvas_id@ == cid);
        let i = choose|i: int| 0 <= i < n && (#[trigger] s1.feeds()[i]).canvas_id@ == cid;
        assert(i == n - 1);
    }
    assert(tracks(s1.feeds(), cid));
    assert(known_url(s1, cid, url) || s1.backup_feeds().len() >= MAX_ROWS);
    let k = s1.subscriptions().len() - 1;
    assert(links(s1.subscriptions()[k], fid, channel));
    assert(is_subscribed(s1.subscriptions(), fid, channel));
}

/// Subscribing a channel to a feed whose canonical id is not tracked yet,
/// with room in the tables, succeeds with the feed's title, tracks the feed
/// once, from the url given and with the epoch as checkpoint, and adds one
/// subscription of the channel to it.
pub proof fn lemma_first_subscribe_tracks_feed(
    s0: Store,
    s1: Store,
    channel: (Seq<char>, Seq<char>),
    url: Seq<char>,
    f: Feed,
    r: Result<String, MyError>,
)
    requires
        s0.wf(),
        subscribed_after(s0, s1, channel, url, Ok(f), r),
        !tracks(s0.feeds(), f.id@),
        s0.feeds().len() < MAX_ROWS,
        s0.subscriptions().len() < MAX_ROWS,
    ensures
        r matches Ok(title) && title@ == f.title@,
        s1.feeds().len() == s0.feeds().len() + 1,
        s1.feeds().drop_last() == s0.feeds(),
        s1.feeds().last().canvas_id@ == f.id@,
        s1.feeds().last().url@ == url,
        s1.feeds().last().last_update == (Timestamp { secs: 0, nanos: 0 }),
        s1.backup_feeds() == s0.backup_feeds(),
        s1.subscriptions().len() == s0.subscriptions().len() + 1,
        s1.subscriptions().drop_last() == s0.subscriptions(),
        links(s1.subscriptions().last(), s1.feeds().last().id, channel),
{
    let cid = f.id@;
    let n = s1.feeds().len();
    assert(s1.feeds()[n - 1].canvas_id@ == cid);
    let i = choose|i: int| 0 <= i < n && (#[trigger] s1.feeds()[i]).canvas_id@ == cid;
    if i < n - 1 {
        assert(s0.feeds()[i] == s1.feeds()[i]);
    }
    assert(i == n - 1);
    let fid = id_of(s1.feeds(), cid);
    if is_subscribed(s0.subscriptions(), fid, channel) {
        let k = choose|k: int| 0 <= k < s0.subscriptions().len() && links(#[trigger] s0.subscriptions()[k], fid, channel);
        assert(s0.subscriptions()[k].feed_id <= s0.feeds().len());
    }
}

impl Feed {
    /// Makes sure the feed `feed`, fetched from `feed_url`, is tracked, and
    /// returns its id. A feed whose canonical id is tracked already keeps its
    /// row, also when it was found under another url; that url is then
    /// recorded as a further url of it. A new one is tracked from the epoch.
    /// Fails with `Generic` when the feed table is full.
    pub fn add(store: &mut Store, feed: &Feed, feed_url: &str) -> (r: Result<i32, DbError>)
        requires
            old(store).wf(),
        ensures
            final(store).wf(),
            final(store).subscriptions() == old(store).subscriptions(),
            tracked_after(*old(store), *final(store), feed.id@, feed_url@, r),
    {
        match DbFeed::get_by_canvas_id(feed.id.as_str(), store) {
            Ok(row) => {
                let id = row.id;
                let own_url = row.url == feed_url.to_owned();
                proof {
                    let i = choose|i: int| 0 <= i < store.feeds().len() && store.feeds()[i] == *row;
                    let j = choose|j: int|
                        0 <= j < store.feeds().len() && (#[trigger] store.feeds()[j]).canvas_id@ == feed.id@;
                    assert(i == j);
                }
                if !own_url {
                    // A url recorded already, or no room to record it, leaves
                    // the further urls as they are.
                    let _ = store.insert_backup_feed(NewBackupFeed { feed_id: id, url: feed_url });
                }
                Ok(id)
            },
            Err(_) => {
                let new_feed = NewFeed {
                    canvas_id: feed.id.as_str(),
                    url: feed_url,
                    last_update: Timestamp::epoch(),
                };
                store.insert_feed(new_feed)
            },
        }
    }
}

impl Subscription {
    /// Subscribes the channel `server_id`/`channel_id` to the feed at `url`,
    /// which its source returned as `fetched`, and returns the feed's title.
    /// A failed fetch changes nothing: a network or HTTP failure is
    /// reported as `InvalidFeedUrl`, any other as it came. The feed is
    /// tracked on its first subscription; a channel already subscribed to it
    /// yields `UniqueViolation`, and the tracked feed stays as it is.
    pub fn add(
        store: &mut Store,
        server_id: &str,
        channel_id: &str,
        url: &str,
        fetched: Result<Feed, FeedError>,
    ) -> (r: Result<String, MyError>)
        requires
            old(store).wf(),
        ensures
            final(store).wf(),
            subscribed_after(*old(store), *final(store), (server_id@, channel_id@), url@, fetched, r),
    {
        let feed = match fetched {
            Ok(f) => f,
            Err(FeedError::Web(m)) => {
                return Err(MyError::Feed(FeedError::InvalidFeedUrl(m)));
            },
            Err(e) => {
                return Err(MyError::Feed(e));
            },
        };
        let ghost old_feeds = store.feeds();
        let feed_id = match Feed::add(store, &feed, url) {
            Ok(id) => id,
            Err(e) => {
                return Err(MyError::Db(e));
            },
        };
        proof {
            let n = store.feeds().len();
            if !tracks(old_feeds, feed.id@) {
                assert(store.feeds()[n - 1].canvas_id@ == feed.id@);
            }
            assert(tracks(store.feeds(), feed.id@));
            let i = choose|i: int| 0 <= i < n && (#[trigger] store.feeds()[i]).canvas_id@ == feed.id@;
            if !tracks(old_feeds, feed.id@) {
                assert(i == n - 1);
            }
            assert(feed_id == id_of(store.feeds(), feed.id@));
        }
        let new_subscription = NewSubsription { server_id, channel_id, feed_id };
        match store.insert_subscription(new_subscription) {
            Ok(_) => Ok(feed.title),
            Err(e) => Err(MyError::Db(e)),
        }
    }
}

/// The answer to a subscribe request.
#[derive(Debug)]
pub struct SubscribeResponse {
    pub success: bool,
    pub message: String,
}

/// The answer to a subscribe request that ended in `r`: success with the
/// feed's title, or a fixed text per error kind that reveals nothing of the
/// error's internals.
pub open spec fn response_for(r: Result<String, MyError>) -> (bool, Seq<char>) {
    match r {
        Ok(title) => (true, "Placed a subscription for '"@ + title@ + "'"@),
        Err(MyError::Feed(FeedError::InvalidFeedUrl(_))) => (
            false,
            "Looks like you passed an invalid feed url"@,
        ),
        Err(MyError::Feed(FeedError::De(_))) => (
            false,
            "Failed to read the url as a announcement feed"@,
        ),
        Err(MyError::Db(DbError::UniqueViolation)) => (
            false,
            "This channel is already subscribed to that feed"@,
        ),
        Err(_) => (false, "Oops something went wrong"@),
    }
}

impl SubscribeResponse {
    /// The answer to a subscribe request that ended in `r`.
    pub fn from_result(r: &Result<String, MyError>) -> (out: SubscribeResponse)
        ensures
            (out.success, out.message@) == response_for(*r),
    {
        match r {
            Ok(title) => {
                let mut message = "Placed a subscription for '".to_owned();
                message.append(title.as_str());
                message.append("'");
                SubscribeResponse { success: true, message }
            },
            Err(MyError::Feed(FeedError::InvalidFeedUrl(_))) => SubscribeResponse {
                success: false,
                message: "Looks like you passed an invalid feed url".to_owned(),
            },
            Err(MyError::Feed(FeedError::De(_))) => SubscribeResponse {
                success: false,
                message: "Failed to read the url as a announcement feed".to_owned(),
            },
            Err(MyError::Db(DbError::UniqueViolation)) => SubscribeResponse {
                success: false,
                message: "This channel is already subscribed to that feed".to_owned(),
            },
            Err(_) => SubscribeResponse {
                success: false,
                message: "Oops something went wrong".to_owned(),
            },
        }
    }
}

} // verus!
