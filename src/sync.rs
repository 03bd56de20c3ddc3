//! Synchronising the tracked feeds with what their sources returned, and
//! turning the result into batches for subscribers.

use vstd::prelude::*;

use crate::canvas::{latest, lemma_latest, lemma_retained_exact, retained, Announcement, Feed};
use crate::db::{subscribers_of, Channel, DbFeed, Store, Subscription};
use crate::error::{DbError, FeedError, MyError};
use crate::rfc3339_time::Timestamp;

verus! {

/// What one sync did for one tracked feed.
#[derive(Debug)]
pub enum SyncOutcome {
    /// New announcements were found; the checkpoint was moved to `checkpoint`
    /// before this was reported.
    Updated { feed_id: i32, announcements: Vec<Announcement>, checkpoint: Timestamp },
    /// Nothing new since the checkpoint.
    Unchanged { feed_id: i32 },
    /// The feed could not be fetched, read, or its checkpoint written.
    Failed { feed_id: i32, error: MyError },
}

/// What listing the tracked feeds found: a batch per listed feed, and each
/// feed whose fetch failed, with its error.
#[derive(Debug)]
pub struct Listing {
    pub batches: Vec<FeedBatch>,
    pub failed: Vec<(i32, MyError)>,
}

/// Announcements of one feed for its subscribers.
#[derive(Debug)]
pub struct FeedBatch {
    pub feed_id: i32,
    pub announcements: Vec<Announcement>,
    pub subscribers: Vec<Channel>,
}

impl View for FeedBatch {
    type V = (i32, Seq<Announcement>, Seq<(Seq<char>, Seq<char>)>);

    open spec fn view(&self) -> (i32, Seq<Announcement>, Seq<(Seq<char>, Seq<char>)>) {
        (self.feed_id, self.announcements@, self.subscribers@.map_values(|c: Channel| c@))
    }
}

/// The announcements of `f` that are new for tracked feed `t`.
pub open spec fn new_entries(t: DbFeed, f: Feed) -> Seq<Announcement> {
    retained(f.announcements@, t.last_update)
}

/// Tracked feed `t` after a sync in which its source returned `fetched`:
/// the checkpoint moves to the latest new announcement, if there is one.
pub open spec fn synced(t: DbFeed, fetched: Result<Feed, FeedError>) -> DbFeed {
    match fetched {
        Ok(f) => match latest(new_entries(t, f)) {
            Some(c) => DbFeed { last_update: c, ..t },
            None => t,
        },
        Err(_) => t,
    }
}

/// `o` is what a sync reports for tracked feed `t` when its source returned `fetched`.
pub open spec fn reports(o: SyncOutcome, t: DbFeed, fetched: Result<Feed, FeedError>) -> bool {
    match fetched {
        Err(e) => o == SyncOutcome::Failed { feed_id: t.id, error: MyError::Feed(e) },
        Ok(f) => match latest(new_entries(t, f)) {
            Some(c) => o matches SyncOutcome::Updated { feed_id, announcements, checkpoint }
                && feed_id == t.id && announcements@ == new_entries(t, f) && checkpoint == c,
            None => o == SyncOutcome::Unchanged { feed_id: t.id },
        },
    }
}

/// The batches that fan-out makes of `outs`: one per `Updated` outcome, in
/// the order of `outs`, with the channels subscribed to that feed.
pub open spec fn fanned(outs: Seq<SyncOutcome>, subs: Seq<Subscription>) -> Seq<
    (i32, Seq<Announcement>, Seq<(Seq<char>, Seq<char>)>),
>
    decreases outs.len(),
{
    if outs.len() == 0 {
        Seq::empty()
    } else {
        let prev = fanned(outs.drop_last(), subs);
        match outs.last() {
            SyncOutcome::Updated { feed_id, announcements, .. } => prev.push(
                (feed_id, announcements@, subscribers_of(subs, feed_id)),
            ),
            _ => prev,
        }
    }
}

/// The batches that listing makes when the source of `rows[i]` returned
/// `fetched[i]`: feeds that failed are left out; with a cutoff, only the
/// announcements after it are listed, and feeds with none are left out.
pub open spec fn listed(
    rows: Seq<DbFeed>,
    fetched: Seq<Result<Feed, FeedError>>,
    cutoff: Option<Timestamp>,
) -> Seq<(i32, Seq<Announcement>, Seq<(Seq<char>, Seq<char>)>)>
    decreases fetched.len(),
{
    if fetched.len() == 0 {
        Seq::empty()
    } else {
        let prev = listed(rows, fetched.drop_last(), cutoff);
        let id = rows[fetched.len() - 1].id;
        match fetched.last() {
            Err(_) => prev,
            Ok(f) => match cutoff {
                None => prev.push((id, f.announcements@, Seq::empty())),
                Some(c) => if retained(f.announcements@, c).len() > 0 {
                    prev.push((id, retained(f.announcements@, c), Seq::empty()))
                } else {
                    prev
                },
            },
        }
    }
}

/// The feeds whose fetch failed when the source of `rows[i]` returned
/// `fetched[i]`, in order, each with its error.
pub open spec fn failures(rows: Seq<DbFeed>, fetched: Seq<Result<Feed, FeedError>>) -> Seq<(i32, MyError)>
    decreases fetched.len(),
{
    if fetched.len() == 0 {
        Seq::empty()
    } else {
        let prev = failures(rows, fetched.drop_last());
        match fetched.last() {
            Err(e) => prev.push((rows[fetched.len() - 1].id, MyError::Feed(e))),
            Ok(_) => prev,
        }
    }
}

/// The checkpoint after a sync is never earlier than before it, whatever the
/// source returned; it moves only when there were new announcements.
pub proof fn lemma_checkpoint_monotonic(t: DbFeed, fetched: Result<Feed, FeedError>)
    ensures
        !t.last_update.later_than(synced(t, fetched).last_update),
        synced(t, fetched).id == t.id,
        synced(t, fetched).canvas_id == t.canvas_id,
        synced(t, fetched).url == t.url,
        synced(t, fetched).last_update != t.last_update ==> synced(t, fetched).last_update.later_than(
            t.last_update,
        ),
{
    if let Ok(f) = fetched {
        let r = new_entries(t, f);
        lemma_latest(r);
        lemma_retained_exact(f.announcements@, t.last_update);
        if let Some(c) = latest(r) {
            let k = choose|k: int| 0 <= k < r.len() && r[k].published == c;
            assert(r[k].published.later_than(t.last_update));
        }
    }
}

/// The checkpoint of a feed after the syncs `fetches[0]`, `fetches[1]`, ...
pub open spec fn synced_all(t: DbFeed, fetches: Seq<Result<Feed, FeedError>>) -> DbFeed
    decreases fetches.len(),
{
    if fetches.len() == 0 {
        t
    } else {
        synced(synced_all(t, fetches.drop_last()), fetches.last())
    }
}

/// Over any sequence of syncs the checkpoint never goes back: after the
/// first `j` syncs it is not later than after the first `k`, for `j <= k`.
pub proof fn lemma_checkpoint_never_regresses(
    t: DbFeed,
    fetches: Seq<Result<Feed, FeedError>>,
    j: int,
    k: int,
)
    requires
        0 <= j <= k <= fetches.len(),
    ensures
        !synced_all(t, fetches.subrange(0, j)).last_update.later_than(
            synced_all(t, fetches.subrange(0, k)).last_update,
        ),
    decreases k - j,
{
    if j < k {
        lemma_checkpoint_never_regresses(t, fetches, j, k - 1);
        let prev = synced_all(t, fetches.subrange(0, k - 1));
        assert(fetches.subrange(0, k).drop_last() =~= fetches.subrange(0, k - 1));
        lemma_checkpoint_monotonic(prev, fetches[k - 1]);
    }
}

/// A second sync on the same remote content finds nothing new: it reports
/// `Unchanged` and leaves the checkpoint where the first sync put it.
pub proof fn lemma_sync_idempotent(t: DbFeed, f: Feed, o: SyncOutcome)
    requires
        reports(o, synced(t, Ok(f)), Ok(f)),
    ensures
        o == (SyncOutcome::Unchanged { feed_id: t.id }),
        synced(synced(t, Ok(f)), Ok(f)) == synced(t, Ok(f)),
{
    let t1 = synced(t, Ok(f));
    let r = new_entries(t, f);
    let r1 = new_entries(t1, f);
    lemma_latest(r);
    lemma_latest(r1);
    lemma_retained_exact(f.announcements@, t.last_update);
    lemma_retained_exact(f.announcements@, t1.last_update);
    if let Some(c) = latest(r) {
        let k = choose|k: int| 0 <= k < r.len() && r[k].published == c;
        assert(r[k].published.later_than(t.last_update));
        if r1.len() > 0 {
            let a = r1[0];
            assert(r1.contains(a));
            assert(f.announcements@.contains(a));
            assert(a.published.later_than(c));
            assert(r.contains(a));
            let m = choose|m: int| 0 <= m < r.len() && r[m] == a;
            assert(!r[m].published.later_than(c));
        }
    }
}

/// A failed fetch is reported as `Failed` for that feed alone; a fetch that
/// succeeded never is.
pub proof fn lemma_fault_isolation(o: SyncOutcome, t: DbFeed, fetched: Result<Feed, FeedError>)
    requires
        reports(o, t, fetched),
    ensures
        (o is Failed) <==> (fetched is Err),
        match o {
            SyncOutcome::Updated { feed_id, .. } => feed_id == t.id,
            SyncOutcome::Unchanged { feed_id } => feed_id == t.id,
            SyncOutcome::Failed { feed_id, .. } => feed_id == t.id,
        },
{
}

impl Feed {
    /// Syncs every tracked feed of `store` with `fetched[i]`, what the source
    /// of its `i`-th feed returned. Each feed is handled on its own: a failed
    /// fetch yields `Failed` for that feed and does not touch the others. A
    /// feed with new announcements has its checkpoint written before
    /// `Updated` is reported.
    pub fn get_new(store: &mut Store, fetched: Vec<Result<Feed, FeedError>>) -> (r: Vec<SyncOutcome>)
        requires
            old(store).wf(),
            fetched@.len() == old(store).feeds().len(),
        ensures
            final(store).wf(),
            final(store).subscriptions() == old(store).subscriptions(),
            final(store).backup_feeds() == old(store).backup_feeds(),
            final(store).feeds().len() == old(store).feeds().len(),
            r@.len() == fetched@.len(),
            forall|i: int|
                0 <= i < fetched@.len() ==> {
                    &&& final(store).feeds()[i] == synced(old(store).feeds()[i], fetched@[i])
                    &&& reports(#[trigger] r@[i], old(store).feeds()[i], fetched@[i])
                    &&& !old(store).feeds()[i].last_update.later_than(
                        final(store).feeds()[i].last_update,
                    )
                },
    {
        let mut rest = fetched;
        let ghost all = rest@;
        let ghost rows = store.feeds();
        let n: usize = rest.len();
        let mut out: Vec<SyncOutcome> = Vec::new();
        let mut i: usize = 0;
        while rest.len() > 0
            invariant
                store.wf(),
                store.subscriptions() == old(store).subscriptions(),
                store.backup_feeds() == old(store).backup_feeds(),
                rows == old(store).feeds(),
                rows.len() == n,
                store.feeds().len() == n,
                n == all.len(),
                i + rest@.len() == n,
                rest@ == all.subrange(i as int, n as int),
                out@.len() == i,
                forall|k: int| 0 <= k < i ==> #[trigger] store.feeds()[k] == synced(rows[k], all[k]),
                forall|k: int| 0 <= k < i ==> reports(#[trigger] out@[k], rows[k], all[k]),
                forall|k: int| i <= k < n ==> store.feeds()[k] == rows[k],
            decreases rest@.len(),
        {
            let ghost out_before = out@;
            let ghost feeds_before = store.feeds();
            let item = rest.remove(0);
            assert(item == all[i as int]);
            let row = &DbFeed::get_all(store)[i];
            let feed_id = row.id;
            let since = row.last_update;
            match item {
                Err(e) => {
                    out.push(SyncOutcome::Failed { feed_id, error: MyError::Feed(e) });
                },
                Ok(feed) => {
                    let mut feed = feed;
                    match feed.after(since) {
                        None => {
                            out.push(SyncOutcome::Unchanged { feed_id });
                        },
                        Some(c) => {
                            match store.set_checkpoint(feed_id, c) {
                                Ok(()) => {
                                    out.push(
                                        SyncOutcome::Updated {
                                            feed_id,
                                            announcements: feed.announcements,
                                            checkpoint: c,
                                        },
                                    );
                                },
                                Err(e) => {
                                    out.push(SyncOutcome::Failed { feed_id, error: MyError::Db(e) });
                                },
                            }
                        },
                    }
                },
            }
            assert(out@.drop_last() == out_before);
            assert(forall|k: int| 0 <= k < n && k != i ==> store.feeds()[k] == feeds_before[k]);
            assert forall|k: int| 0 <= k < i + 1 implies reports(#[trigger] out@[k], rows[k], all[k]) by {
                if k < i {
                    assert(out@.drop_last()[k] == out@[k]);
                    assert(reports(out_before[k], rows[k], all[k]));
                }
            }
            assert forall|k: int| 0 <= k < i + 1 implies #[trigger] store.feeds()[k] == synced(rows[k], all[k]) by {
                if k < i {
                    assert(feeds_before[k] == synced(rows[k], all[k]));
                }
            }
            i = i + 1;
            assert(rest@ =~= all.subrange(i as int, n as int));
        }
        assert(all == fetched@);
        assert forall|k: int| 0 <= k < n implies !rows[k].last_update.later_than(
            #[trigger] store.feeds()[k].last_update,
        ) by {
            lemma_checkpoint_monotonic(rows[k], all[k]);
        }
        out
    }

    /// Lists what the source of each tracked feed returned, `fetched[i]` for
    /// the `i`-th feed, without touching any checkpoint. Feeds whose fetch
    /// failed get no batch; each is reported in `failed` with its error,
    /// and the others are listed all the same. With a cutoff only the
    /// announcements published after it are listed, and feeds without such
    /// get no batch.
    pub fn get_all(
        store: &Store,
        fetched: Vec<Result<Feed, FeedError>>,
        cutoff: Option<Timestamp>,
    ) -> (r: Listing)
        requires
            fetched@.len() == store.feeds().len(),
        ensures
            r.batches@.map_values(|b: FeedBatch| b@) == listed(store.feeds(), fetched@, cutoff),
            r.failed@ == failures(store.feeds(), fetched@),
    {
        let mut rest = fetched;
        let ghost all = rest@;
        let n: usize = rest.len();
        let mut failed: Vec<(i32, MyError)> = Vec::new();
        let mut out: Vec<FeedBatch> = Vec::new();
        let mut i: usize = 0;
        while rest.len() > 0
            invariant
                n == all.len(),
                n == store.feeds().len(),
                i + rest@.len() == n,
                rest@ == all.subrange(i as int, n as int),
                out@.map_values(|b: FeedBatch| b@) == listed(store.feeds(), all.subrange(0, i as int), cutoff),
                failed@ == failures(store.feeds(), all.subrange(0, i as int)),
            decreases rest@.len(),
        {
            let item = rest.remove(0);
            let ghost prev = out@.map_values(|b: FeedBatch| b@);
            proof {
                let sub = all.subrange(0, i as int + 1);
                assert(sub.drop_last() =~= all.subrange(0, i as int));
                assert(sub.last() == item);
            }
            let feed_id = DbFeed::get_all(store)[i].id;
            match item {
                Err(e) => {
                    failed.push((feed_id, MyError::Feed(e)));
                },
                Ok(feed) => {
                    let mut feed = feed;
                    match cutoff {
                        None => {
                            out.push(FeedBatch { feed_id, announcements: feed.announcements, subscribers: Vec::new() });
                            assert(out@.last()@.2 =~= Seq::<(Seq<char>, Seq<char>)>::empty());
                            assert(out@.map_values(|b: FeedBatch| b@) =~= prev.push(out@.last()@));
                        },
                        Some(c) => {
                            let _latest = feed.after(c);
                            if feed.announcements.len() > 0 {
                                out.push(FeedBatch { feed_id, announcements: feed.announcements, subscribers: Vec::new() });
                                assert(out@.last()@.2 =~= Seq::<(Seq<char>, Seq<char>)>::empty());
                                assert(out@.map_values(|b: FeedBatch| b@) =~= prev.push(out@.last()@));
                            }
                        },
                    }
                },
            }
            i = i + 1;
            assert(rest@ =~= all.subrange(i as int, n as int));
        }
        assert(all.subrange(0, n as int) =~= all);
        Listing { batches: out, failed }
    }
}

/// Settles an outcome of a sync once its checkpoint was written to durable
/// storage with result `write`. A failed write of an `Updated` outcome puts
/// the checkpoint of its feed back to `previous`, the value before the sync,
/// and turns the outcome into `Failed`, so that the next sync finds the same
/// announcements again. Anything else passes unchanged.
pub fn confirm_write(
    store: &mut Store,
    outcome: SyncOutcome,
    previous: Timestamp,
    write: Result<(), DbError>,
) -> (r: SyncOutcome)
    requires
        old(store).wf(),
    ensures
        final(store).wf(),
        final(store).subscriptions() == old(store).subscriptions(),
        final(store).backup_feeds() == old(store).backup_feeds(),
        match (outcome, write) {
            (SyncOutcome::Updated { feed_id, .. }, Err(e)) => {
                &&& r == SyncOutcome::Failed { feed_id, error: MyError::Db(e) }
                &&& if 1 <= feed_id <= old(store).feeds().len() {
                    final(store).feeds() == old(store).feeds().update(
                        feed_id - 1,
                        DbFeed { last_update: previous, ..old(store).feeds()[feed_id - 1] },
                    )
                } else {
                    final(store).feeds() == old(store).feeds()
                }
            },
            _ => r == outcome && final(store).feeds() == old(store).feeds(),
        },
{
    match write {
        Ok(()) => outcome,
        Err(e) => match outcome {
            SyncOutcome::Updated { feed_id, .. } => {
                let _ = store.set_checkpoint(feed_id, previous);
                SyncOutcome::Failed { feed_id, error: MyError::Db(e) }
            },
            other => other,
        },
    }
}

/// Turns the `Updated` outcomes of a sync into batches, in order, each with
/// the channels subscribed to its feed. Other outcomes yield no batch.
pub fn fan_out(store: &Store, outcomes: Vec<SyncOutcome>) -> (r: Vec<FeedBatch>)
    ensures
        r@.map_values(|b: FeedBatch| b@) == fanned(outcomes@, store.subscriptions()),
{
    let mut rest = outcomes;
    let ghost all = rest@;
    let n: usize = rest.len();
    let mut out: Vec<FeedBatch> = Vec::new();
    let mut i: usize = 0;
    while rest.len() > 0
        invariant
            n == all.len(),
            i + rest@.len() == n,
            rest@ == all.subrange(i as int, n as int),
            out@.map_values(|b: FeedBatch| b@) == fanned(all.subrange(0, i as int), store.subscriptions()),
        decreases rest@.len(),
    {
        let item = rest.remove(0);
        let ghost prev = out@.map_values(|b: FeedBatch| b@);
        proof {
            let sub = all.subrange(0, i as int + 1);
            assert(sub.drop_last() =~= all.subrange(0, i as int));
            assert(sub.last() == item);
        }
        if let SyncOutcome::Updated { feed_id, announcements, .. } = item {
            let subscribers = store.list_subscribers(feed_id);
            out.push(FeedBatch { feed_id, announcements, subscribers });
            assert(out@.map_values(|b: FeedBatch| b@) =~= prev.push(out@.last()@));
        }
        i = i + 1;
        assert(rest@ =~= all.subrange(i as int, n as int));
    }
    assert(all.subrange(0, n as int) =~= all);
    out
}

} // verus!
