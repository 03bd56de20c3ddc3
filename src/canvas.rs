//! Fetched feeds and their announcements, and the filter that keeps what is new.

use vstd::prelude::*;

use crate::rfc3339_time::Timestamp;

verus! {

/// A feed as fetched from its source. Only its canonical id and its
/// checkpoint are kept in the store.
#[derive(Debug)]
pub struct Feed {
    pub xmlns: String,
    /// Canonical id of the feed, assigned by its source.
    pub id: String,
    pub title: String,
    /// When the source last changed the feed.
    pub updated: Timestamp,
    pub link: Link,
    /// All announcements, in source order.
    pub announcements: Vec<Announcement>,
}

#[derive(Debug)]
pub struct Announcement {
    pub title: String,
    pub id: String,
    /// When the announcement was last edited.
    pub updated: Timestamp,
    /// When the announcement was placed; the only field announcements are
    /// compared by.
    pub published: Timestamp,
    pub link: Link,
    pub author: Author,
    pub content: Content,
}

#[derive(Debug)]
pub struct Link {
    pub rel: String,
    pub href: String,
}

#[derive(Debug)]
pub struct Author {
    pub name: String,
}

#[derive(Debug)]
pub struct Content {
    /// Type of the content: html, ...
    pub content_type: String,
    pub content: String,
}

/// The announcements of `s` published strictly after `since`, in source order.
pub open spec fn retained(s: Seq<Announcement>, since: Timestamp) -> Seq<Announcement> {
    s.filter(|a: Announcement| a.published.later_than(since))
}

/// The latest publication time in `s`, or `None` when `s` is empty.
pub open spec fn latest(s: Seq<Announcement>) -> Option<Timestamp>
    decreases s.len(),
{
    if s.len() == 0 {
        None
    } else {
        let p = s.last().published;
        match latest(s.drop_last()) {
            None => Some(p),
            Some(m) => if p.later_than(m) {
                Some(p)
            } else {
                Some(m)
            },
        }
    }
}

/// One more announcement at the end extends what is retained by itself if it is new.
pub proof fn lemma_retained_push(s: Seq<Announcement>, i: int, since: Timestamp)
    requires
        0 <= i < s.len(),
    ensures
        retained(s.subrange(0, i + 1), since) == if s[i].published.later_than(since) {
            retained(s.subrange(0, i), since).push(s[i])
        } else {
            retained(s.subrange(0, i), since)
        },
{
    reveal(Seq::filter);
    assert(s.subrange(0, i + 1).drop_last() =~= s.subrange(0, i));
}

/// What is retained is exactly the announcements published after `since`,
/// in the order the feed lists them.
pub proof fn lemma_retained_exact(s: Seq<Announcement>, since: Timestamp)
    ensures
        forall|a: Announcement|
            retained(s, since).contains(a) <==> (s.contains(a) && a.published.later_than(since)),
        forall|i: int|
            0 <= i < retained(s, since).len() ==> retained(s, since)[i].published.later_than(since),
    decreases s.len(),
{
    reveal(Seq::filter);
    if s.len() > 0 {
        lemma_retained_exact(s.drop_last(), since);
        assert(s =~= s.drop_last().push(s.last()));
        assert forall|a: Announcement| s.contains(a) implies (s.drop_last().contains(a) || a == s.last()) by {
            let k = choose|k: int| 0 <= k < s.len() && s[k] == a;
            if k < s.len() - 1 {
                assert(s.drop_last()[k] == a);
            }
        }
        assert forall|a: Announcement| s.drop_last().contains(a) implies s.contains(a) by {
            let k = choose|k: int| 0 <= k < s.drop_last().len() && s.drop_last()[k] == a;
            assert(s[k] == a);
        }
        let sub = retained(s.drop_last(), since);
        if s.last().published.later_than(since) {
            assert(retained(s, since) == sub.push(s.last()));
            assert forall|a: Announcement| sub.push(s.last()).contains(a) <==> (sub.contains(a) || a == s.last()) by {
                if sub.push(s.last()).contains(a) {
                    let k = choose|k: int| 0 <= k < sub.len() + 1 && sub.push(s.last())[k] == a;
                    if k < sub.len() {
                        assert(sub[k] == a);
                    }
                }
                if sub.contains(a) {
                    let k = choose|k: int| 0 <= k < sub.len() && sub[k] == a;
                    assert(sub.push(s.last())[k] == a);
                }
                if a == s.last() {
                    assert(sub.push(s.last())[sub.len() as int] == a);
                }
            }
        }
    }
}

/// A latest publication time exists exactly for a non-empty sequence; it is
/// the publication time of one of its announcements, and none is later.
pub proof fn lemma_latest(s: Seq<Announcement>)
    ensures
        latest(s) is None <==> s.len() == 0,
        latest(s) matches Some(m) ==> (exists|k: int| 0 <= k < s.len() && s[k].published == m),
        latest(s) matches Some(m) ==> (forall|k: int| 0 <= k < s.len() ==> !(#[trigger] s[k].published).later_than(m)),
    decreases s.len(),
{
    if s.len() > 0 {
        let d = s.drop_last();
        lemma_latest(d);
        assert forall|k: int| 0 <= k < d.len() implies d[k] == s[k] by {}
        if let Some(m) = latest(d) {
            let k = choose|k: int| 0 <= k < d.len() && d[k].published == m;
            assert(s[k].published == m);
        }
    }
}

impl Feed {
    /// Keeps only the announcements published after `after`, in source order,
    /// and returns the latest publication time among them, or `None` when no
    /// announcement is new.
    pub fn after(&mut self, after: Timestamp) -> (r: Option<Timestamp>)
        ensures
            final(self).announcements@ == retained(old(self).announcements@, after),
            r == latest(final(self).announcements@),
            final(self).xmlns == old(self).xmlns,
            final(self).id == old(self).id,
            final(self).title == old(self).title,
            final(self).updated == old(self).updated,
            final(self).link == old(self).link,
    {
        let mut rest: Vec<Announcement> = Vec::new();
        std::mem::swap(&mut rest, &mut self.announcements);
        let ghost all = rest@;
        let n: usize = rest.len();
        let mut kept: Vec<Announcement> = Vec::new();
        let mut max: Option<Timestamp> = None;
        let mut i: usize = 0;
        assert(all.subrange(0, 0) =~= Seq::<Announcement>::empty());
        proof {
            reveal(Seq::filter);
        }
        while rest.len() > 0
            invariant
                i + rest@.len() == all.len(),
                all.len() == n,
                rest@ == all.subrange(i as int, all.len() as int),
                kept@ == retained(all.subrange(0, i as int), after),
                max == latest(kept@),
            decreases rest@.len(),
        {
            let a = rest.remove(0);
            proof {
                lemma_retained_push(all, i as int, after);
            }
            assert(a == all[i as int]);
            if a.published.is_after(&after) {
                let p = a.published;
                max = match max {
                    None => Some(p),
                    Some(m) => if p.is_after(&m) {
                        Some(p)
                    } else {
                        Some(m)
                    },
                };
                kept.push(a);
                assert(kept@.drop_last() == retained(all.subrange(0, i as int), after));
            }
            i = i + 1;
            assert(rest@ =~= all.subrange(i as int, all.len() as int));
        }
        assert(all.subrange(0, i as int) =~= all);
        self.announcements = kept;
        max
    }
}

} // verus!
