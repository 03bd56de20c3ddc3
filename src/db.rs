//! The rows this crate keeps per tracked feed and per subscription, and the
//! store that holds them: the checkpoint store and the subscription directory.

use vstd::prelude::*;

use crate::error::DbError;
use crate::rfc3339_time::Timestamp;

verus! {

/// The largest number of rows a table holds: row ids are positive `i32`s.
pub const MAX_ROWS: usize = 0x7fff_fffe;

/// A destination of announcements: a channel on a chat server.
#[derive(Debug)]
pub struct Channel {
    pub server_id: String,
    pub channel_id: String,
}

impl View for Channel {
    type V = (Seq<char>, Seq<char>);

    open spec fn view(&self) -> (Seq<char>, Seq<char>) {
        (self.server_id@, self.channel_id@)
    }
}

impl Channel {
    pub fn new(server_id: String, channel_id: String) -> (r: Self)
        ensures
            r.server_id == server_id,
            r.channel_id == channel_id,
    {
        Channel { server_id, channel_id }
    }
}

/// A feed to be tracked, before the store gives it an id.
#[derive(Debug)]
pub struct NewFeed<'a> {
    pub canvas_id: &'a str,
    pub url: &'a str,
    pub last_update: Timestamp,
}

/// A tracked feed: its canonical id, the url it is fetched from, and its
/// checkpoint, the publication time of the latest announcement delivered.
#[derive(Debug)]
pub struct DbFeed {
    pub id: i32,
    pub canvas_id: String,
    pub url: String,
    pub last_update: Timestamp,
}

/// A further url that a tracked feed was found under, before the store
/// gives it an id.
#[derive(Debug)]
pub struct NewBackupFeed<'a> {
    pub feed_id: i32,
    pub url: &'a str,
}

/// A further url that tracked feed `feed_id` was found under. The feed is
/// still fetched from its own url.
#[derive(Debug)]
pub struct DbBackupFeed {
    pub id: i32,
    pub feed_id: i32,
    pub url: String,
}

/// A subscription to be placed, before the store gives it an id.
#[derive(Debug)]
pub struct NewSubsription<'a> {
    pub server_id: &'a str,
    pub channel_id: &'a str,
    pub feed_id: i32,
}

/// A channel subscribed to a tracked feed.
#[derive(Debug)]
pub struct Subscription {
    pub id: i32,
    pub server_id: String,
    pub channel_id: String,
    pub feed_id: i32,
}

/// Some feed of `feeds` has canonical id `cid`.
pub open spec fn tracks(feeds: Seq<DbFeed>, cid: Seq<char>) -> bool {
    exists|i: int| 0 <= i < feeds.len() && (#[trigger] feeds[i]).canvas_id@ == cid
}

/// Subscription `s` sends feed `feed_id` to `channel`.
pub open spec fn links(s: Subscription, feed_id: i32, channel: (Seq<char>, Seq<char>)) -> bool {
    s.feed_id == feed_id && s.server_id@ == channel.0 && s.channel_id@ == channel.1
}

/// Some subscription of `subs` sends feed `feed_id` to `channel`.
pub open spec fn is_subscribed(
    subs: Seq<Subscription>,
    feed_id: i32,
    channel: (Seq<char>, Seq<char>),
) -> bool {
    exists|i: int| 0 <= i < subs.len() && links(#[trigger] subs[i], feed_id, channel)
}

/// `url` is recorded as a further url of feed `feed_id`.
pub open spec fn is_backup(backups: Seq<DbBackupFeed>, feed_id: i32, url: Seq<char>) -> bool {
    exists|i: int| 0 <= i < backups.len() && (#[trigger] backups[i]).feed_id == feed_id && backups[i].url@ == url
}

/// The further urls are consistent: ids count up from 1, each names a
/// tracked feed, and a url is recorded for a feed at most once.
pub open spec fn backups_wf(n_feeds: int, backups: Seq<DbBackupFeed>) -> bool {
    &&& backups.len() <= MAX_ROWS
    &&& forall|i: int|
        0 <= i < backups.len() ==> (#[trigger] backups[i]).id as int == i + 1 && 1 <= backups[i].feed_id
            <= n_feeds
    &&& forall|i: int, j: int|
        0 <= i < j < backups.len() ==> !((#[trigger] backups[j]).feed_id == (#[trigger] backups[i]).feed_id
            && backups[j].url@ == backups[i].url@)
}

/// The channels subscribed to feed `feed_id`, in the order the subscriptions
/// were placed.
pub open spec fn subscribers_of(subs: Seq<Subscription>, feed_id: i32) -> Seq<(Seq<char>, Seq<char>)>
    decreases subs.len(),
{
    if subs.len() == 0 {
        Seq::empty()
    } else {
        let prev = subscribers_of(subs.drop_last(), feed_id);
        if subs.last().feed_id == feed_id {
            prev.push((subs.last().server_id@, subs.last().channel_id@))
        } else {
            prev
        }
    }
}

/// The tables are consistent: ids count up from 1, a canonical id is
/// tracked at most once, every subscription names a tracked feed, and a
/// channel is subscribed to a feed at most once.
pub open spec fn rows_wf(feeds: Seq<DbFeed>, subs: Seq<Subscription>) -> bool {
    &&& feeds.len() <= MAX_ROWS
    &&& subs.len() <= MAX_ROWS
    &&& forall|i: int| 0 <= i < feeds.len() ==> (#[trigger] feeds[i]).id as int == i + 1
    &&& forall|i: int, j: int|
        0 <= i < j < feeds.len() ==> (#[trigger] feeds[i]).canvas_id@ != (#[trigger] feeds[j]).canvas_id@
    &&& forall|i: int|
        0 <= i < subs.len() ==> (#[trigger] subs[i]).id as int == i + 1 && 1 <= subs[i].feed_id
            <= feeds.len()
    &&& forall|i: int, j: int|
        0 <= i < j < subs.len() ==> !links(
            #[trigger] subs[j],
            (#[trigger] subs[i]).feed_id,
            (subs[i].server_id@, subs[i].channel_id@),
        )
}

/// The tracked feeds and the subscriptions to them.
pub struct Store {
    feeds: Vec<DbFeed>,
    backup_feeds: Vec<DbBackupFeed>,
    subscriptions: Vec<Subscription>,
}

impl Store {
    pub closed spec fn feeds(&self) -> Seq<DbFeed> {
        self.feeds@
    }

    pub closed spec fn subscriptions(&self) -> Seq<Subscription> {
        self.subscriptions@
    }

    pub closed spec fn backup_feeds(&self) -> Seq<DbBackupFeed> {
        self.backup_feeds@
    }

    pub open spec fn wf(&self) -> bool {
        rows_wf(self.feeds(), self.subscriptions()) && backups_wf(
            self.feeds().len() as int,
            self.backup_feeds(),
        )
    }

    /// A store that tracks nothing.
    pub fn new() -> (r: Store)
        ensures
            r.wf(),
            r.feeds() == Seq::<DbFeed>::empty(),
            r.backup_feeds() == Seq::<DbBackupFeed>::empty(),
            r.subscriptions() == Seq::<Subscription>::empty(),
    {
        Store { feeds: Vec::new(), backup_feeds: Vec::new(), subscriptions: Vec::new() }
    }

    /// The position of the feed with canonical id `canvas_id`, if it is tracked.
    pub fn position(&self, canvas_id: &str) -> (r: Option<usize>)
        ensures
            match r {
                Some(i) => i < self.feeds().len() && self.feeds()[i as int].canvas_id@ == canvas_id@,
                None => !tracks(self.feeds(), canvas_id@),
            },
    {
        let key = canvas_id.to_owned();
        let mut i: usize = 0;
        while i < self.feeds.len()
            invariant
                i <= self.feeds@.len(),
                key@ == canvas_id@,
                forall|k: int| 0 <= k < i ==> self.feeds@[k].canvas_id@ != key@,
            decreases self.feeds@.len() - i,
        {
            if self.feeds[i].canvas_id == key {
                return Some(i);
            }
            i = i + 1;
        }
        None
    }

    /// Tracks a new feed under the next id. Fails with `UniqueViolation` when
    /// its canonical id is tracked already, and with `Generic` when the table
    /// is full; the store is then unchanged.
    pub fn insert_feed(&mut self, new: NewFeed) -> (r: Result<i32, DbError>)
        requires
            old(self).wf(),
        ensures
            final(self).wf(),
            final(self).subscriptions() == old(self).subscriptions(),
            final(self).backup_feeds() == old(self).backup_feeds(),
            tracks(old(self).feeds(), new.canvas_id@) ==> r == Err::<i32, DbError>(DbError::UniqueViolation)
                && final(self).feeds() == old(self).feeds(),
            !tracks(old(self).feeds(), new.canvas_id@) && old(self).feeds().len() >= MAX_ROWS ==> (r matches Err(
                DbError::Generic(_),
            )) && final(self).feeds() == old(self).feeds(),
            !tracks(old(self).feeds(), new.canvas_id@) && old(self).feeds().len() < MAX_ROWS ==> {
                &&& r == Ok::<i32, DbError>((old(self).feeds().len() + 1) as i32)
                &&& final(self).feeds().len() == old(self).feeds().len() + 1
                &&& final(self).feeds().drop_last() == old(self).feeds()
                &&& final(self).feeds().last().id as int == old(self).feeds().len() + 1
                &&& final(self).feeds().last().canvas_id@ == new.canvas_id@
                &&& final(self).feeds().last().url@ == new.url@
                &&& final(self).feeds().last().last_update == new.last_update
            },
    {
        if self.position(new.canvas_id).is_some() {
            return Err(DbError::UniqueViolation);
        }
        if self.feeds.len() >= MAX_ROWS {
            return Err(DbError::new("the feed table is full"));
        }
        let id = (self.feeds.len() + 1) as i32;
        let row = DbFeed {
            id,
            canvas_id: new.canvas_id.to_owned(),
            url: new.url.to_owned(),
            last_update: new.last_update,
        };
        let ghost before = self.feeds@;
        self.feeds.push(row);
        assert(self.feeds@.drop_last() =~= before);
        assert forall|i: int| 0 <= i < self.subscriptions@.len() implies 1 <= (
        #[trigger] self.subscriptions@[i]).feed_id <= self.feeds@.len() by {}
        assert forall|i: int| 0 <= i < self.backup_feeds@.len() implies 1 <= (
        #[trigger] self.backup_feeds@[i]).feed_id <= self.feeds@.len() by {}
        Ok(id)
    }

    /// Moves the checkpoint of feed `feed_id` to `t`. Fails with `NotFound`,
    /// changing nothing, when no such feed is tracked.
    pub fn set_checkpoint(&mut self, feed_id: i32, t: Timestamp) -> (r: Result<(), DbError>)
        requires
            old(self).wf(),
        ensures
            final(self).wf(),
            final(self).subscriptions() == old(self).subscriptions(),
            final(self).backup_feeds() == old(self).backup_feeds(),
            1 <= feed_id <= old(self).feeds().len() ==> r is Ok && final(self).feeds() == old(
                self,
            ).feeds().update(
                feed_id - 1,
                DbFeed { last_update: t, ..old(self).feeds()[feed_id - 1] },
            ),
            !(1 <= feed_id <= old(self).feeds().len()) ==> r == Err::<(), DbError>(DbError::NotFound)
                && final(self).feeds() == old(self).feeds(),
    {
        if feed_id < 1 || feed_id as usize > self.feeds.len() {
            return Err(DbError::NotFound);
        }
        let i = (feed_id - 1) as usize;
        let ghost before = self.feeds@;
        self.feeds[i].last_update = t;
        assert(self.feeds@ =~= before.update(i as int, DbFeed { last_update: t, ..before[i as int] }));
        Ok(())
    }

    /// Whether `server_id`/`channel_id` is subscribed to feed `feed_id`.
    fn has_subscription(&self, feed_id: i32, server_id: &String, channel_id: &String) -> (r: bool)
        ensures
            r == is_subscribed(self.subscriptions(), feed_id, (server_id@, channel_id@)),
    {
        let mut i: usize = 0;
        while i < self.subscriptions.len()
            invariant
                i <= self.subscriptions@.len(),
                forall|k: int|
                    0 <= k < i ==> !links(
                        #[trigger] self.subscriptions@[k],
                        feed_id,
                        (server_id@, channel_id@),
                    ),
            decreases self.subscriptions@.len() - i,
        {
            let s = &self.subscriptions[i];
            if s.feed_id == feed_id && s.server_id == *server_id && s.channel_id == *channel_id {
                assert(links(self.subscriptions@[i as int], feed_id, (server_id@, channel_id@)));
                return true;
            }
            i = i + 1;
        }
        false
    }

    /// Whether `url` is recorded as a further url of feed `feed_id`.
    fn has_backup(&self, feed_id: i32, url: &String) -> (r: bool)
        ensures
            r == is_backup(self.backup_feeds(), feed_id, url@),
    {
        let mut i: usize = 0;
        while i < self.backup_feeds.len()
            invariant
                i <= self.backup_feeds@.len(),
                forall|k: int|
                    0 <= k < i ==> !((#[trigger] self.backup_feeds@[k]).feed_id == feed_id
                        && self.backup_feeds@[k].url@ == url@),
            decreases self.backup_feeds@.len() - i,
        {
            let b = &self.backup_feeds[i];
            if b.feed_id == feed_id && b.url == *url {
                return true;
            }
            i = i + 1;
        }
        false
    }

    /// Records `new.url` as a further url of feed `new.feed_id` under the
    /// next id. Fails, changing nothing, with `NotFound` when the feed is not
    /// tracked, with `UniqueViolation` when the url is recorded for it
    /// already, and with `Generic` when the table is full.
    pub fn insert_backup_feed(&mut self, new: NewBackupFeed) -> (r: Result<i32, DbError>)
        requires
            old(self).wf(),
        ensures
            final(self).wf(),
            final(self).feeds() == old(self).feeds(),
            final(self).subscriptions() == old(self).subscriptions(),
            !(1 <= new.feed_id <= old(self).feeds().len()) ==> r == Err::<i32, DbError>(DbError::NotFound)
                && final(self).backup_feeds() == old(self).backup_feeds(),
            1 <= new.feed_id <= old(self).feeds().len() && is_backup(
                old(self).backup_feeds(),
                new.feed_id,
                new.url@,
            ) ==> r == Err::<i32, DbError>(DbError::UniqueViolation) && final(self).backup_feeds() == old(
                self,
            ).backup_feeds(),
            1 <= new.feed_id <= old(self).feeds().len() && !is_backup(
                old(self).backup_feeds(),
                new.feed_id,
                new.url@,
            ) && old(self).backup_feeds().len() >= MAX_ROWS ==> (r matches Err(DbError::Generic(_)))
                && final(self).backup_feeds() == old(self).backup_feeds(),
            1 <= new.feed_id <= old(self).feeds().len() && !is_backup(
                old(self).backup_feeds(),
                new.feed_id,
                new.url@,
            ) && old(self).backup_feeds().len() < MAX_ROWS ==> {
                &&& r == Ok::<i32, DbError>((old(self).backup_feeds().len() + 1) as i32)
                &&& final(self).backup_feeds().len() == old(self).backup_feeds().len() + 1
                &&& final(self).backup_feeds().drop_last() == old(self).backup_feeds()
                &&& final(self).backup_feeds().last().id as int == old(self).backup_feeds().len() + 1
                &&& final(self).backup_feeds().last().feed_id == new.feed_id
                &&& final(self).backup_feeds().last().url@ == new.url@
            },
    {
        if new.feed_id < 1 || new.feed_id as usize > self.feeds.len() {
            return Err(DbError::NotFound);
        }
        let url = new.url.to_owned();
        if self.has_backup(new.feed_id, &url) {
            return Err(DbError::UniqueViolation);
        }
        if self.backup_feeds.len() >= MAX_ROWS {
            return Err(DbError::new("the backup feed table is full"));
        }
        let id = (self.backup_feeds.len() + 1) as i32;
        let ghost before = self.backup_feeds@;
        self.backup_feeds.push(DbBackupFeed { id, feed_id: new.feed_id, url });
        assert(self.backup_feeds@.drop_last() =~= before);
        assert forall|i: int, j: int|
            0 <= i < j < self.backup_feeds@.len() implies !((#[trigger] self.backup_feeds@[j]).feed_id == (
            #[trigger] self.backup_feeds@[i]).feed_id && self.backup_feeds@[j].url@
            == self.backup_feeds@[i].url@) by {
            assert(self.backup_feeds@[i] == before[i]);
            if j < before.len() {
                assert(self.backup_feeds@[j] == before[j]);
            }
        }
        Ok(id)
    }

    /// Subscribes `new.server_id`/`new.channel_id` to feed `new.feed_id` under
    /// the next id. Fails, changing nothing, with `NotFound` when the feed is
    /// not tracked, with `UniqueViolation` when the channel is subscribed to
    /// it already, and with `Generic` when the table is full.
    pub fn insert_subscription(&mut self, new: NewSubsription) -> (r: Result<i32, DbError>)
        requires
            old(self).wf(),
        ensures
            final(self).wf(),
            final(self).feeds() == old(self).feeds(),
            final(self).backup_feeds() == old(self).backup_feeds(),
            !(1 <= new.feed_id <= old(self).feeds().len()) ==> r == Err::<i32, DbError>(DbError::NotFound)
                && final(self).subscriptions() == old(self).subscriptions(),
            1 <= new.feed_id <= old(self).feeds().len() && is_subscribed(
                old(self).subscriptions(),
                new.feed_id,
                (new.server_id@, new.channel_id@),
            ) ==> r == Err::<i32, DbError>(DbError::UniqueViolation) && final(self).subscriptions() == old(
                self,
            ).subscriptions(),
            1 <= new.feed_id <= old(self).feeds().len() && !is_subscribed(
                old(self).subscriptions(),
                new.feed_id,
                (new.server_id@, new.channel_id@),
            ) && old(self).subscriptions().len() >= MAX_ROWS ==> (r matches Err(DbError::Generic(_)))
                && final(self).subscriptions() == old(self).subscriptions(),
            1 <= new.feed_id <= old(self).feeds().len() && !is_subscribed(
                old(self).subscriptions(),
                new.feed_id,
                (new.server_id@, new.channel_id@),
            ) && old(self).subscriptions().len() < MAX_ROWS ==> {
                &&& r == Ok::<i32, DbError>((old(self).subscriptions().len() + 1) as i32)
                &&& final(self).subscriptions().len() == old(self).subscriptions().len() + 1
                &&& final(self).subscriptions().drop_last() == old(self).subscriptions()
                &&& final(self).subscriptions().last().id as int == old(self).subscriptions().len() + 1
                &&& links(
                    final(self).subscriptions().last(),
                    new.feed_id,
                    (new.server_id@, new.channel_id@),
                )
            },
    {
        if new.feed_id < 1 || new.feed_id as usize > self.feeds.len() {
            return Err(DbError::NotFound);
        }
        let server_id = new.server_id.to_owned();
        let channel_id = new.channel_id.to_owned();
        if self.has_subscription(new.feed_id, &server_id, &channel_id) {
            return Err(DbError::UniqueViolation);
        }
        if self.subscriptions.len() >= MAX_ROWS {
            return Err(DbError::new("the subscription table is full"));
        }
        let id = (self.subscriptions.len() + 1) as i32;
        let row = Subscription { id, server_id, channel_id, feed_id: new.feed_id };
        let ghost before = self.subscriptions@;
        self.subscriptions.push(row);
        assert(self.subscriptions@.drop_last() =~= before);
        assert forall|i: int, j: int|
            0 <= i < j < self.subscriptions@.len() implies !links(
            #[trigger] self.subscriptions@[j],
            (#[trigger] self.subscriptions@[i]).feed_id,
            (self.subscriptions@[i].server_id@, self.subscriptions@[i].channel_id@),
        ) by {
            if j == before.len() {
                assert(self.subscriptions@[i] == before[i]);
            } else {
                assert(self.subscriptions@[i] == before[i]);
                assert(self.subscriptions@[j] == before[j]);
            }
        }
        Ok(id)
    }

    /// The channels subscribed to feed `feed_id`, in the order they subscribed.
    pub fn list_subscribers(&self, feed_id: i32) -> (r: Vec<Channel>)
        ensures
            r@.map_values(|c: Channel| c@) == subscribers_of(self.subscriptions(), feed_id),
    {
        let mut out: Vec<Channel> = Vec::new();
        let mut i: usize = 0;
        while i < self.subscriptions.len()
            invariant
                i <= self.subscriptions@.len(),
                out@.map_values(|c: Channel| c@) == subscribers_of(
                    self.subscriptions@.subrange(0, i as int),
                    feed_id,
                ),
            decreases self.subscriptions@.len() - i,
        {
            let ghost sub = self.subscriptions@.subrange(0, i as int + 1);
            assert(sub.drop_last() =~= self.subscriptions@.subrange(0, i as int));
            let s = &self.subscriptions[i];
            if s.feed_id == feed_id {
                let ghost prev = out@;
                out.push(Channel { server_id: s.server_id.clone(), channel_id: s.channel_id.clone() });
                assert(out@.map_values(|c: Channel| c@) =~= prev.map_values(|c: Channel| c@).push(
                    (s.server_id@, s.channel_id@),
                ));
            }
            i = i + 1;
        }
        assert(self.subscriptions@.subrange(0, i as int) =~= self.subscriptions@);
        out
    }
}

impl DbFeed {
    /// The tracked feed with canonical id `search_canvas_id`; `NotFound`
    /// when there is none.
    pub fn get_by_canvas_id<'a>(search_canvas_id: &str, store: &'a Store) -> (r: Result<
        &'a DbFeed,
        DbError,
    >)
        ensures
            match r {
                Ok(f) => exists|i: int|
                    0 <= i < store.feeds().len() && store.feeds()[i] == *f && f.canvas_id@
                        == search_canvas_id@,
                Err(e) => e == DbError::NotFound && !tracks(store.feeds(), search_canvas_id@),
            },
    {
        match store.position(search_canvas_id) {
            Some(i) => Ok(&store.feeds[i]),
            None => Err(DbError::NotFound),
        }
    }

    /// All tracked feeds, in the order they were created.
    pub fn get_all(store: &Store) -> (r: &Vec<DbFeed>)
        ensures
            r@ == store.feeds(),
    {
        &store.feeds
    }
}

impl DbBackupFeed {
    /// All further urls of tracked feeds, in the order they were recorded.
    pub fn get_all(store: &Store) -> (r: &Vec<DbBackupFeed>)
        ensures
            r@ == store.backup_feeds(),
    {
        &store.backup_feeds
    }
}

} // verus!
