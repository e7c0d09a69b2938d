//! The history of notifications shown: newest first, at most [`MAX_HISTORY`] entries.
use vstd::prelude::*;
use crate::notifications::server::unique_ids;
use crate::notifications::types::{
    notification_views, Notification, NotificationEvent, NotificationView,
};

verus! {

/// The most entries a push keeps.
pub const MAX_HISTORY: usize = 200;

/// The notification history, newest first.
#[derive(Debug)]
pub struct NotificationHistory {
    entries: Vec<Notification>,
}

/// The index of the first entry with id `id`.
pub open spec fn position_of(s: Seq<NotificationView>, id: u32) -> Option<int>
    decreases s.len(),
{
    if s.len() == 0 {
        None
    } else {
        match position_of(s.drop_last(), id) {
            Some(i) => Some(i),
            None => if s.last().id == id {
                Some(s.len() - 1)
            } else {
                None
            },
        }
    }
}

proof fn lemma_position_prefix(s: Seq<NotificationView>, id: u32, k: int)
    requires
        0 <= k <= s.len(),
        position_of(s.take(k), id) is Some,
    ensures
        position_of(s, id) == position_of(s.take(k), id),
    decreases s.len(),
{
    if k < s.len() {
        assert(s.drop_last().take(k) =~= s.take(k));
        lemma_position_prefix(s.drop_last(), id, k);
    } else {
        assert(s.take(k) =~= s);
    }
}

proof fn lemma_position_bounds(s: Seq<NotificationView>, id: u32)
    ensures
        position_of(s, id) matches Some(i) ==> 0 <= i < s.len() && s[i].id == id,
        position_of(s, id) is None ==> forall|j: int| 0 <= j < s.len() ==> s[j].id != id,
    decreases s.len(),
{
    if s.len() > 0 {
        lemma_position_bounds(s.drop_last(), id);
        assert forall|j: int| 0 <= j < s.len() - 1 implies s[j] == s.drop_last()[j] by {}
    }
}

/// The history after pushing `n`: an entry with the same id is replaced where it stands;
/// otherwise `n` goes first and the history is cut to [`MAX_HISTORY`] entries.
pub open spec fn pushed(s: Seq<NotificationView>, n: NotificationView) -> Seq<NotificationView> {
    match position_of(s, n.id) {
        Some(i) => s.update(i, n),
        None => if s.len() + 1 > MAX_HISTORY {
            seq![n].add(s).take(MAX_HISTORY as int)
        } else {
            seq![n].add(s)
        },
    }
}

/// The history without the entries of id `id`.
pub open spec fn without_id(s: Seq<NotificationView>, id: u32) -> Seq<NotificationView>
    decreases s.len(),
{
    if s.len() == 0 {
        Seq::empty()
    } else if s.last().id == id {
        without_id(s.drop_last(), id)
    } else {
        without_id(s.drop_last(), id).push(s.last())
    }
}

impl NotificationHistory {
    /// The entries, newest first.
    pub closed spec fn spec_entries(&self) -> Seq<NotificationView> {
        notification_views(self.entries@)
    }

    /// An empty history.
    pub fn new() -> (r: NotificationHistory)
        ensures
            r.spec_entries() == Seq::<NotificationView>::empty(),
    {
        let r = NotificationHistory { entries: Vec::new() };
        proof {
            assert(r.spec_entries() =~= Seq::<NotificationView>::empty());
        }
        r
    }

    /// A history holding `entries` (as read back from disk), newest first.
    pub fn from_entries(entries: Vec<Notification>) -> (r: NotificationHistory)
        ensures
            r.spec_entries() == notification_views(entries@),
    {
        NotificationHistory { entries }
    }

    fn find(&self, id: u32) -> (r: Option<usize>)
        ensures
            match r {
                Some(i) => position_of(self.spec_entries(), id) == Some(i as int) && i
                    < self.entries.len(),
                None => position_of(self.spec_entries(), id) is None,
            },
    {
        let ghost s = self.spec_entries();
        let mut i: usize = 0;
        while i < self.entries.len()
            invariant
                i <= self.entries.len(),
                s == notification_views(self.entries@),
                position_of(s.take(i as int), id) is None,
            decreases self.entries.len() - i,
        {
            proof {
                assert(s.take(i + 1).drop_last() =~= s.take(i as int));
            }
            if self.entries[i].id == id {
                proof {
                    lemma_position_prefix(s, id, i + 1);
                }
                return Some(i);
            }
            i += 1;
        }
        proof {
            assert(s.take(self.entries.len() as int) =~= s);
        }
        None
    }

    /// Records a notification: one with the same id is replaced where it stands, a new one
    /// goes first, and the history keeps at most [`MAX_HISTORY`] entries after it.
    pub fn push(&mut self, notification: Notification)
        ensures
            final(self).spec_entries() == pushed(old(self).spec_entries(), notification@),
    {
        let ghost s = self.spec_entries();
        let ghost n = notification@;
        match self.find(notification.id) {
            Some(pos) => {
                self.entries.set(pos, notification);
                proof {
                    assert(self.spec_entries() =~= s.update(pos as int, n));
                }
            },
            None => {
                self.entries.insert(0, notification);
                proof {
                    assert(self.spec_entries() =~= seq![n].add(s));
                }
                if self.entries.len() > MAX_HISTORY {
                    self.entries.truncate(MAX_HISTORY);
                    proof {
                        assert(self.spec_entries() =~= seq![n].add(s).take(MAX_HISTORY as int));
                    }
                }
            },
        }
    }

    /// Drops every entry of id `id`.
    pub fn remove(&mut self, id: u32)
        ensures
            final(self).spec_entries() == without_id(old(self).spec_entries(), id),
    {
        let ghost s = self.spec_entries();
        let mut kept: Vec<Notification> = Vec::new();
        let mut old_entries: Vec<Notification> = Vec::new();
        std::mem::swap(&mut old_entries, &mut self.entries);
        proof {
            assert(notification_views(old_entries@) == s);
        }
        let mut i: usize = 0;
        while i < old_entries.len()
            invariant
                i <= old_entries.len(),
                notification_views(old_entries@) == s,
                notification_views(kept@) == without_id(s.take(i as int), id),
            decreases old_entries.len() - i,
        {
            proof {
                assert(s.take(i + 1).drop_last() =~= s.take(i as int));
                assert(s.take(i + 1).last() == old_entries@[i as int]@);
            }
            if old_entries[i].id != id {
                let n = old_entries[i].duplicate();
                let ghost before = kept@;
                kept.push(n);
                proof {
                    assert(notification_views(kept@) =~= notification_views(before).push(n@));
                }
            }
            i += 1;
        }
        proof {
            assert(s.take(old_entries.len() as int) =~= s);
        }
        self.entries = kept;
    }

    /// Empties the history.
    pub fn clear(&mut self)
        ensures
            final(self).spec_entries() == Seq::<NotificationView>::empty(),
    {
        self.entries = Vec::new();
        proof {
            assert(self.spec_entries() =~= Seq::<NotificationView>::empty());
        }
    }

    /// A copy of the entries, newest first.
    pub fn list(&self) -> (r: Vec<Notification>)
        ensures
            notification_views(r@) == self.spec_entries(),
    {
        let mut r: Vec<Notification> = Vec::new();
        let mut i: usize = 0;
        while i < self.entries.len()
            invariant
                i <= self.entries.len(),
                notification_views(r@) == self.spec_entries().take(i as int),
            decreases self.entries.len() - i,
        {
            let n = self.entries[i].duplicate();
            let ghost before = r@;
            r.push(n);
            proof {
                assert(notification_views(r@) =~= notification_views(before).push(n@));
                assert(notification_views(r@) =~= self.spec_entries().take(i + 1));
            }
            i += 1;
        }
        proof {
            assert(self.spec_entries().take(self.entries.len() as int) =~= self.spec_entries());
        }
        r
    }
}

/// After a push the pushed notification is in the history: where an entry with its id
/// stood, or first; and the history never grows past [`MAX_HISTORY`] by a push.
pub proof fn lemma_push_keeps_notification(s: Seq<NotificationView>, n: NotificationView)
    ensures
        match position_of(s, n.id) {
            Some(i) => pushed(s, n)[i] == n && pushed(s, n).len() == s.len(),
            None => pushed(s, n)[0] == n && pushed(s, n).len() == if s.len() + 1 > MAX_HISTORY {
                MAX_HISTORY as int
            } else {
                s.len() + 1int
            },
        },
        s.len() <= MAX_HISTORY ==> pushed(s, n).len() <= MAX_HISTORY,
{
    lemma_position_bounds(s, n.id);
}

/// A push keeps the ids of the history distinct: a history whose ids are pairwise
/// distinct still has pairwise distinct ids after any push.
pub proof fn lemma_push_keeps_ids_distinct(s: Seq<NotificationView>, n: NotificationView)
    requires
        unique_ids(s),
    ensures
        unique_ids(pushed(s, n)),
{
    lemma_position_bounds(s, n.id);
    match position_of(s, n.id) {
        Some(i) => {
            let p = s.update(i, n);
            assert forall|a: int, b: int| 0 <= a < b < p.len() implies p[a].id != p[b].id by {
                if a != i && b != i {
                    assert(p[a] == s[a] && p[b] == s[b]);
                } else if a == i {
                    assert(p[b] == s[b]);
                    assert(s[i].id == n.id);
                } else {
                    assert(p[a] == s[a]);
                    assert(s[i].id == n.id);
                }
            }
        },
        None => {
            let q = seq![n].add(s);
            assert forall|a: int, b: int| 0 <= a < b < q.len() implies q[a].id != q[b].id by {
                assert(q[b] == s[b - 1]);
                if a > 0 {
                    assert(q[a] == s[a - 1]);
                }
            }
            if s.len() + 1 > MAX_HISTORY {
                let r = q.take(MAX_HISTORY as int);
                assert forall|a: int, b: int| 0 <= a < b < r.len() implies r[a].id != r[b].id by {
                    assert(r[a] == q[a] && r[b] == q[b]);
                }
            }
        },
    }
}

/// After removing an id, no entry has it, and every other entry is kept in order.
pub proof fn lemma_remove_drops_only_id(s: Seq<NotificationView>, id: u32)
    ensures
        forall|j: int| 0 <= j < without_id(s, id).len() ==> without_id(s, id)[j].id != id,
        without_id(s, id).len() <= s.len(),
        (forall|j: int| 0 <= j < s.len() ==> s[j].id != id) ==> without_id(s, id) == s,
    decreases s.len(),
{
    if s.len() > 0 {
        lemma_remove_drops_only_id(s.drop_last(), id);
        assert forall|j: int| 0 <= j < s.len() - 1 implies s[j] == s.drop_last()[j] by {}
        if forall|j: int| 0 <= j < s.len() ==> s[j].id != id {
            assert(s.drop_last().push(s.last()) =~= s);
        }
    } else {
        assert(without_id(s, id) =~= s);
    }
}

/// The notification an event records in the history: a notification that was added or
/// replaced, unless it is transient.
pub fn history_entry_for(event: &NotificationEvent) -> (r: Option<Notification>)
    ensures
        match *event {
            NotificationEvent::Added(n) => if n.transient {
                r is None
            } else {
                r matches Some(x) && x@ == n@
            },
            NotificationEvent::Replaced { notification: n, .. } => if n.transient {
                r is None
            } else {
                r matches Some(x) && x@ == n@
            },
            _ => r is None,
        },
{
    match event {
        NotificationEvent::Added(n) => if n.transient {
            None
        } else {
            Some(n.duplicate())
        },
        NotificationEvent::Replaced { notification: n, .. } => if n.transient {
            None
        } else {
            Some(n.duplicate())
        },
        _ => None,
    }
}

} // verus!
