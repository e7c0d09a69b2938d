//! The state of the notification server: the active notifications, which of them have
//! their expiry paused, and the next id; the `Notify` and `CloseNotification` requests,
//! expiry timeouts, and the steps of an expiry countdown.
use vstd::prelude::*;
use crate::launcher::types::{opt_view, views};
use crate::notifications::hints::{
    bool_hint, decode_bool_hint, decode_image_data, decode_str_hint, decode_urgency, image_of,
    str_hint, urgency_of, HintValue,
};
use crate::notifications::history::{position_of};
use crate::notifications::sanitize::{sanitize_body, sanitized_body};
use crate::notifications::types::{
    notification_views, ClosedReason, Notification, NotificationEvent, NotificationView,
    Urgency,
};
use crate::text::owned;

verus! {

/// The most notifications active at once; further new ones are refused.
pub const MAX_ACTIVE: usize = 50;
/// Default expiry of a low-urgency notification, in milliseconds.
pub const DEFAULT_TIMEOUT_LOW_MS: u64 = 3_000;
/// Default expiry of a normal notification, in milliseconds.
pub const DEFAULT_TIMEOUT_NORMAL_MS: u64 = 5_000;

/// The expiry of a notification for the `expire_timeout` of its request: 0 never expires;
/// -1 asks for the server default, which depends on urgency (critical ones never expire);
/// a positive value is taken as is; any other negative value gets the normal default.
pub open spec fn timeout_for(expire_timeout: i32, urgency: Urgency) -> Option<u64> {
    if expire_timeout == 0 {
        None
    } else if expire_timeout == -1 {
        match urgency {
            Urgency::Critical => None,
            Urgency::Normal => Some(DEFAULT_TIMEOUT_NORMAL_MS),
            Urgency::Low => Some(DEFAULT_TIMEOUT_LOW_MS),
        }
    } else if expire_timeout > 0 {
        Some(expire_timeout as u64)
    } else {
        Some(DEFAULT_TIMEOUT_NORMAL_MS)
    }
}

/// The expiry, in milliseconds, of a notification; `None` when it never expires.
pub fn resolve_timeout(expire_timeout: i32, urgency: Urgency) -> (r: Option<u64>)
    ensures
        r == timeout_for(expire_timeout, urgency),
{
    if expire_timeout == 0 {
        None
    } else if expire_timeout == -1 {
        match urgency {
            Urgency::Critical => None,
            Urgency::Normal => Some(DEFAULT_TIMEOUT_NORMAL_MS),
            Urgency::Low => Some(DEFAULT_TIMEOUT_LOW_MS),
        }
    } else if expire_timeout > 0 {
        Some(expire_timeout as u64)
    } else {
        Some(DEFAULT_TIMEOUT_NORMAL_MS)
    }
}

/// `SystemTime::now().duration_since(UNIX_EPOCH)` in whole seconds, or `None` when the
/// clock is set before the epoch. It reads the clock, so nothing is stated of it.
#[verifier::external_body]
fn seconds_since_epoch() -> (r: Option<u64>)
{
    match std::time::SystemTime::now().duration_since(std::time::UNIX_EPOCH) {
        Ok(d) => Some(d.as_secs()),
        Err(_) => None,
    }
}

/// Seconds since the Unix epoch; 0 when the clock is set before it.
pub fn unix_now() -> u64 {
    match seconds_since_epoch() {
        Some(s) => s,
        None => 0,
    }
}

/// A `Notify` call.
#[derive(Debug)]
pub struct NotifyRequest {
    pub app_name: String,
    pub replaces_id: u32,
    pub app_icon: String,
    pub summary: String,
    pub body: String,
    pub actions: Vec<String>,
    pub hints: Vec<(String, HintValue)>,
    pub expire_timeout: i32,
}

/// `a`, or else `b`.
pub open spec fn either(a: Option<Seq<char>>, b: Option<Seq<char>>) -> Option<Seq<char>> {
    match a {
        Some(x) => Some(x),
        None => b,
    }
}

/// The notification a request makes, with id `id`, created at `created_at`: the body
/// sanitized, urgency, category, desktop entry, image, image path (`image-path`, else the
/// deprecated `image_path`), resident and transient flags read from the hints, and the
/// expiry resolved from the request's timeout and the urgency.
pub open spec fn requested(req: NotifyRequest, id: u32, created_at: u64) -> NotificationView {
    let hints = req.hints@;
    let urgency = urgency_of(hints);
    NotificationView {
        id: id,
        app_name: req.app_name@,
        app_icon: req.app_icon@,
        summary: req.summary@,
        body: sanitized_body(req.body@),
        actions: views(req.actions@),
        urgency: urgency,
        category: str_hint(hints, "category"@),
        desktop_entry: str_hint(hints, "desktop-entry"@),
        image: image_of(hints),
        image_path: either(str_hint(hints, "image-path"@), str_hint(hints, "image_path"@)),
        resident: bool_hint(hints, "resident"@),
        transient: bool_hint(hints, "transient"@),
        expire_timeout_ms: timeout_for(req.expire_timeout, urgency),
        created_at: created_at,
    }
}

/// Why a `Notify` call was refused.
#[derive(Debug, Clone, Copy, PartialEq, Eq, Structural)]
pub enum NotifyError {
    /// [`MAX_ACTIVE`] notifications are active and the call would add one more.
    QueueFull,
}

impl NotifyError {
    /// The message of the D-Bus `Failed` error.
    pub fn message(&self) -> (r: String)
        ensures
            r@ == "notification queue full"@,
    {
        owned("notification queue full")
    }
}

/// Whether no two notifications share an id.
pub open spec fn unique_ids(s: Seq<NotificationView>) -> bool {
    forall|i: int, j: int| 0 <= i < j < s.len() ==> s[i].id != s[j].id
}

/// The state of the notification server.
#[derive(Debug)]
pub struct ServerState {
    active: Vec<Notification>,
    paused: Vec<u32>,
    id_seq: u32,
}

impl ServerState {
    /// The active notifications (in the order they were first added).
    pub closed spec fn spec_active(&self) -> Seq<NotificationView> {
        notification_views(self.active@)
    }

    /// The ids whose expiry is paused.
    pub closed spec fn spec_paused(&self) -> Set<u32> {
        Set::new(|x: u32| self.paused@.contains(x))
    }

    /// The id the next new notification gets.
    pub closed spec fn spec_next_id(&self) -> u32 {
        self.id_seq
    }

    /// No two active notifications share an id, and at most [`MAX_ACTIVE`] are active.
    pub open spec fn wf(&self) -> bool {
        unique_ids(self.spec_active()) && self.spec_active().len() <= MAX_ACTIVE
    }

    /// A server with nothing active and nothing paused; ids start at 1.
    pub fn new() -> (r: ServerState)
        ensures
            r.wf(),
            r.spec_active() == Seq::<NotificationView>::empty(),
            r.spec_paused() == Set::<u32>::empty(),
            r.spec_next_id() == 1,
    {
        let r = ServerState { active: Vec::new(), paused: Vec::new(), id_seq: 1 };
        proof {
            assert(r.spec_active() =~= Seq::<NotificationView>::empty());
            assert(r.spec_paused() =~= Set::<u32>::empty());
        }
        r
    }

    fn find(&self, id: u32) -> (r: Option<usize>)
        ensures
            match r {
                Some(i) => position_of(self.spec_active(), id) == Some(i as int) && i
                    < self.active.len(),
                None => position_of(self.spec_active(), id) is None,
            },
    {
        let ghost s = self.spec_active();
        let mut i: usize = 0;
        while i < self.active.len()
            invariant
                i <= self.active.len(),
                s == notification_views(self.active@),
                position_of(s.take(i as int), id) is None,
            decreases self.active.len() - i,
        {
            proof {
                assert(s.take(i + 1).drop_last() =~= s.take(i as int));
            }
            if self.active[i].id == id {
                proof {
                    lemma_position_prefix(s, id, i + 1);
                }
                return Some(i);
            }
            i += 1;
        }
        proof {
            assert(s.take(self.active.len() as int) =~= s);
        }
        None
    }

    /// Whether a notification of id `id` is active.
    pub fn is_active(&self, id: u32) -> (r: bool)
        ensures
            r == (position_of(self.spec_active(), id) is Some),
    {
        self.find(id).is_some()
    }

    /// Whether the expiry of `id` is paused.
    pub fn is_paused(&self, id: u32) -> (r: bool)
        ensures
            r == self.spec_paused().contains(id),
    {
        let mut i: usize = 0;
        while i < self.paused.len()
            invariant
                i <= self.paused.len(),
                forall|j: int| 0 <= j < i ==> self.paused@[j] != id,
            decreases self.paused.len() - i,
        {
            if self.paused[i] == id {
                proof {
                    assert(self.paused@.contains(id));
                }
                return true;
            }
            i += 1;
        }
        proof {
            assert(!self.paused@.contains(id));
        }
        false
    }

    /// Pauses the expiry of `id` (while the pointer is over it, say).
    pub fn pause_expiry(&mut self, id: u32)
        ensures
            final(self).spec_paused() == old(self).spec_paused().insert(id),
            final(self).spec_active() == old(self).spec_active(),
            final(self).spec_next_id() == old(self).spec_next_id(),
    {
        let ghost before = self.paused@;
        self.paused.push(id);
        proof {
            assert forall|x: u32| self.paused@.contains(x) <==> (before.contains(x) || x == id) by {
                if x == id {
                    assert(self.paused@[before.len() as int] == id);
                }
                if before.contains(x) {
                    let k = choose|k: int| 0 <= k < before.len() && before[k] == x;
                    assert(self.paused@[k] == x);
                }
                if self.paused@.contains(x) && x != id {
                    let k = choose|k: int| 0 <= k < self.paused@.len() && self.paused@[k] == x;
                    assert(before[k] == x);
                }
            }
            assert(before == old(self).paused@);
            assert forall|x: u32| #[trigger] self.spec_paused().contains(x) <==> old(
                self,
            ).spec_paused().insert(id).contains(x) by {
                assert(self.spec_paused().contains(x) == self.paused@.contains(x));
                assert(old(self).spec_paused().contains(x) == before.contains(x));
            }
            assert(self.spec_paused() =~= old(self).spec_paused().insert(id));
        }
    }

    /// Resumes the expiry of `id`.
    pub fn resume_expiry(&mut self, id: u32)
        ensures
            final(self).spec_paused() == old(self).spec_paused().remove(id),
            final(self).spec_active() == old(self).spec_active(),
            final(self).spec_next_id() == old(self).spec_next_id(),
    {
        let ghost before = self.paused@;
        let mut kept: Vec<u32> = Vec::new();
        let mut i: usize = 0;
        while i < self.paused.len()
            invariant
                i <= self.paused.len(),
                self.paused@ == before,
                forall|x: u32| #[trigger]
                    kept@.contains(x) <==> (before.take(i as int).contains(x) && x != id),
            decreases self.paused.len() - i,
        {
            let x = self.paused[i];
            let ghost old_kept = kept@;
            if x != id {
                kept.push(x);
            }
            proof {
                let pre = before.take(i as int);
                let post = before.take(i + 1);
                assert forall|y: u32| #[trigger]
                    kept@.contains(y) <==> (post.contains(y) && y != id) by {
                    if post.contains(y) {
                        let k = choose|k: int| 0 <= k < post.len() && post[k] == y;
                        if k < i {
                            assert(pre[k] == y);
                        }
                    }
                    if pre.contains(y) {
                        let k = choose|k: int| 0 <= k < pre.len() && pre[k] == y;
                        assert(post[k] == y);
                    }
                    if x != id {
                        if y == x {
                            assert(kept@[old_kept.len() as int] == y);
                            assert(post[i as int] == y);
                        }
                        if old_kept.contains(y) {
                            let k = choose|k: int| 0 <= k < old_kept.len() && old_kept[k] == y;
                            assert(kept@[k] == y);
                        }
                        if kept@.contains(y) && y != x {
                            let k = choose|k: int| 0 <= k < kept@.len() && kept@[k] == y;
                            assert(old_kept[k] == y);
                        }
                    }
                }
            }
            i += 1;
        }
        proof {
            assert(before.take(before.len() as int) =~= before);
            assert(Set::new(|x: u32| kept@.contains(x)) =~= old(self).spec_paused().remove(id));
        }
        self.paused = kept;
    }

    /// Copies of the active notifications.
    pub fn active_list(&self) -> (r: Vec<Notification>)
        ensures
            notification_views(r@) == self.spec_active(),
    {
        let mut r: Vec<Notification> = Vec::new();
        let mut i: usize = 0;
        while i < self.active.len()
            invariant
                i <= self.active.len(),
                notification_views(r@) == self.spec_active().take(i as int),
            decreases self.active.len() - i,
        {
            let n = self.active[i].duplicate();
            let ghost before = r@;
            r.push(n);
            proof {
                assert(notification_views(r@) =~= notification_views(before).push(n@));
                assert(notification_views(r@) =~= self.spec_active().take(i + 1));
            }
            i += 1;
        }
        proof {
            assert(self.spec_active().take(self.active.len() as int) =~= self.spec_active());
        }
        r
    }

    /// Closes notification `id` for `reason`: when it is active it is removed and the
    /// `Closed` event is returned; otherwise nothing happens.
    pub fn close(&mut self, id: u32, reason: ClosedReason) -> (r: Option<NotificationEvent>)
        requires
            old(self).wf(),
        ensures
            final(self).wf(),
            final(self).spec_paused() == old(self).spec_paused(),
            final(self).spec_next_id() == old(self).spec_next_id(),
            match position_of(old(self).spec_active(), id) {
                Some(i) => final(self).spec_active() == old(self).spec_active().remove(i) && r
                    == Some(NotificationEvent::Closed { id, reason }),
                None => final(self).spec_active() == old(self).spec_active() && r is None,
            },
    {
        match self.find(id) {
            Some(i) => {
                let ghost s = self.spec_active();
                let _ = self.active.remove(i);
                proof {
                    assert(self.spec_active() =~= s.remove(i as int));
                    lemma_unique_remove(s, i as int);
                }
                Some(NotificationEvent::Closed { id, reason })
            },
            None => None,
        }
    }

    /// What serving a `Notify` call made at `created_at` does, from state `before` to state
    /// `after` with result `r`. With [`MAX_ACTIVE`] notifications active, a call that would
    /// add one (it replaces none, or names one that is not active) is refused and nothing
    /// changes. Otherwise the notification takes the id it replaces, or else the next id
    /// (which then advances, wrapping); it takes the place of the active one of that id, or
    /// is added after the others; and the event says which of the two happened. Paused
    /// expiries are untouched either way.
    pub open spec fn notify_outcome(
        before: ServerState,
        req: NotifyRequest,
        created_at: u64,
        after: ServerState,
        r: Result<(u32, NotificationEvent), NotifyError>,
    ) -> bool {
        &&& after.spec_paused() == before.spec_paused()
        &&& ({
                let s = before.spec_active();
                let full = s.len() >= MAX_ACTIVE && (req.replaces_id == 0 || position_of(
                    s,
                    req.replaces_id,
                ) is None);
                let id = if req.replaces_id > 0 {
                    req.replaces_id
                } else {
                    before.spec_next_id()
                };
                let n = requested(req, id, created_at);
                if full {
                    r == Err::<(u32, NotificationEvent), NotifyError>(NotifyError::QueueFull)
                        && after.spec_active() == s && after.spec_next_id()
                        == before.spec_next_id()
                } else {
                    &&& r matches Ok((rid, event))
                    &&& rid == id
                    &&& match position_of(s, id) {
                        Some(i) => {
                            &&& 0 <= i < s.len()
                            &&& after.spec_active() == s.update(i, n)
                            &&& event matches NotificationEvent::Replaced { id: eid, notification }
                            &&& eid == id
                            &&& notification@ == n
                        },
                        None => {
                            &&& after.spec_active() == s.push(n)
                            &&& event matches NotificationEvent::Added(notification)
                            &&& notification@ == n
                        },
                    }
                    &&& after.spec_next_id() as int == if req.replaces_id > 0 {
                        before.spec_next_id() as int
                    } else {
                        (before.spec_next_id() as int + 1) % 0x1_0000_0000
                    }
                }
            })
    }

    /// Serves a `Notify` call made at `created_at` (seconds since the epoch), as
    /// [`ServerState::notify_outcome`] describes.
    pub fn notify_at(&mut self, req: NotifyRequest, created_at: u64) -> (r: Result<
        (u32, NotificationEvent),
        NotifyError,
    >)
        requires
            old(self).wf(),
        ensures
            final(self).wf(),
            Self::notify_outcome(*old(self), req, created_at, *final(self), r),
    {
        let ghost s = self.spec_active();
        let ghost req_copy = req;
        let replaced_active = if req.replaces_id == 0 {
            false
        } else {
            self.find(req.replaces_id).is_some()
        };
        if self.active.len() >= MAX_ACTIVE && !replaced_active {
            return Err(NotifyError::QueueFull);
        }
        let urgency = decode_urgency(&req.hints);
        let expire_timeout_ms = resolve_timeout(req.expire_timeout, urgency);
        let image_path = match decode_str_hint(&req.hints, "image-path") {
            Some(p) => Some(p),
            None => decode_str_hint(&req.hints, "image_path"),
        };
        let id = if req.replaces_id > 0 {
            req.replaces_id
        } else {
            let id = self.id_seq;
            self.id_seq = self.id_seq.wrapping_add(1);
            id
        };
        let notification = Notification {
            id,
            app_name: req.app_name,
            app_icon: req.app_icon,
            summary: req.summary,
            body: sanitize_body(&req.body),
            actions: req.actions,
            urgency,
            category: decode_str_hint(&req.hints, "category"),
            desktop_entry: decode_str_hint(&req.hints, "desktop-entry"),
            image: decode_image_data(&req.hints),
            image_path,
            resident: decode_bool_hint(&req.hints, "resident"),
            transient: decode_bool_hint(&req.hints, "transient"),
            expire_timeout_ms,
            created_at,
        };
        proof {
            assert(notification@ == requested(req_copy, id, created_at));
        }
        let copy = notification.duplicate();
        match self.find(id) {
            Some(i) => {
                self.active.set(i, notification);
                proof {
                    assert(self.spec_active() =~= s.update(i as int, copy@));
                    lemma_position_bounds(s, id);
                    lemma_unique_update(s, i as int, copy@);
                }
                Ok((id, NotificationEvent::Replaced { id, notification: copy }))
            },
            None => {
                self.active.push(notification);
                proof {
                    assert(self.spec_active() =~= s.push(copy@));
                    lemma_unique_push(s, copy@);
                }
                Ok((id, NotificationEvent::Added(copy)))
            },
        }
    }

    /// Serves a `Notify` call now: as [`ServerState::notify_at`] at the current time, the
    /// only thing left open being which time that was.
    pub fn notify(&mut self, req: NotifyRequest) -> (r: Result<(u32, NotificationEvent), NotifyError>)
        requires
            old(self).wf(),
        ensures
            final(self).wf(),
            exists|t: u64| #[trigger] Self::notify_outcome(*old(self), req, t, *final(self), r),
    {
        let ghost before = *self;
        let ghost req_copy = req;
        let now = unix_now();
        let r = self.notify_at(req, now);
        proof {
            assert(Self::notify_outcome(before, req_copy, now, *self, r));
        }
        r
    }
}

proof fn lemma_position_prefix(s: Seq<NotificationView>, id: u32, k: int)
    requires
        0 <= k <= s.len(),
        position_of(s.take(k), id) is Some,
    ensures
        position_of(s, id) == position_of(s.take(k), id),
    decreases s.len(),
{
    if k < s.len() {
        assert(s.drop_last().take(k) =~= s.take(k));
        lemma_position_prefix(s.drop_last(), id, k);
    } else {
        assert(s.take(k) =~= s);
    }
}

proof fn lemma_position_bounds(s: Seq<NotificationView>, id: u32)
    ensures
        position_of(s, id) matches Some(i) ==> 0 <= i < s.len() && s[i].id == id,
        position_of(s, id) is None ==> forall|j: int| 0 <= j < s.len() ==> s[j].id != id,
    decreases s.len(),
{
    if s.len() > 0 {
        lemma_position_bounds(s.drop_last(), id);
        assert forall|j: int| 0 <= j < s.len() - 1 implies s[j] == s.drop_last()[j] by {}
    }
}

/// With unique ids, the position of the notification at `k` is `k`.
proof fn lemma_unique_position(s: Seq<NotificationView>, k: int)
    requires
        unique_ids(s),
        0 <= k < s.len(),
    ensures
        position_of(s, s[k].id) == Some(k),
{
    lemma_position_bounds(s, s[k].id);
    match position_of(s, s[k].id) {
        Some(i) => {
            assert(i == k);
        },
        None => {},
    }
}

proof fn lemma_unique_remove(s: Seq<NotificationView>, i: int)
    requires
        unique_ids(s),
        0 <= i < s.len(),
    ensures
        unique_ids(s.remove(i)),
        position_of(s.remove(i), s[i].id) is None,
{
    let t = s.remove(i);
    assert forall|a: int, b: int| 0 <= a < b < t.len() implies t[a].id != t[b].id by {
        let a2 = if a < i { a } else { a + 1 };
        let b2 = if b < i { b } else { b + 1 };
        assert(t[a] == s[a2] && t[b] == s[b2]);
    }
    lemma_position_bounds(t, s[i].id);
    if position_of(t, s[i].id) is Some {
        let k = position_of(t, s[i].id)->0;
        let k2 = if k < i { k } else { k + 1 };
        assert(t[k] == s[k2]);
    }
}

proof fn lemma_unique_update(s: Seq<NotificationView>, i: int, n: NotificationView)
    requires
        unique_ids(s),
        0 <= i < s.len(),
        s[i].id == n.id,
    ensures
        unique_ids(s.update(i, n)),
{
}

proof fn lemma_unique_push(s: Seq<NotificationView>, n: NotificationView)
    requires
        unique_ids(s),
        position_of(s, n.id) is None,
    ensures
        unique_ids(s.push(n)),
{
    lemma_position_bounds(s, n.id);
}

/// Read after write: after a `Notify` that was served, the notification is active under
/// the id returned, and it is the one the request describes; and at most [`MAX_ACTIVE`]
/// stay active.
pub proof fn lemma_notify_then_active(
    s: Seq<NotificationView>,
    id: u32,
    n: NotificationView,
)
    requires
        unique_ids(s),
        s.len() <= MAX_ACTIVE,
        n.id == id,
        position_of(s, id) is None ==> s.len() < MAX_ACTIVE,
    ensures
        ({
            let after = match position_of(s, id) {
                Some(i) => s.update(i, n),
                None => s.push(n),
            };
            &&& position_of(after, id) matches Some(k) && after[k] == n
            &&& unique_ids(after)
            &&& after.len() <= MAX_ACTIVE
        }),
{
    lemma_position_bounds(s, id);
    match position_of(s, id) {
        Some(i) => {
            lemma_unique_update(s, i, n);
            lemma_unique_position(s.update(i, n), i);
        },
        None => {
            lemma_unique_push(s, n);
            lemma_unique_position(s.push(n), s.len() as int);
        },
    }
}

/// After a notification is closed it is no longer active, and closing it again changes
/// nothing.
pub proof fn lemma_close_removes(s: Seq<NotificationView>, id: u32)
    requires
        unique_ids(s),
    ensures
        position_of(s, id) matches Some(i) ==> position_of(s.remove(i), id) is None,
{
    lemma_position_bounds(s, id);
    if position_of(s, id) is Some {
        lemma_unique_remove(s, position_of(s, id)->0);
    }
}

/// One step of an expiry countdown.
#[derive(Debug, Clone, Copy, PartialEq, Eq, Structural)]
pub enum ExpiryStep {
    /// The time is up: close the notification if it is still active.
    Expire,
    /// Sleep this long, then continue with this much time left.
    Sleep { millis: u64, remaining: u64 },
}

/// The length of one tick of an expiry countdown, in milliseconds.
pub const EXPIRY_TICK_MS: u64 = 50;

/// The next step of a countdown with `remaining` milliseconds left: expire at 0; while
/// paused, sleep a tick without counting it; otherwise sleep a tick (or what is left, if
/// less) and count it.
pub fn expiry_step(remaining: u64, paused: bool) -> (r: ExpiryStep)
    ensures
        remaining == 0 ==> r == ExpiryStep::Expire,
        remaining > 0 && paused ==> r == (ExpiryStep::Sleep {
            millis: EXPIRY_TICK_MS,
            remaining,
        }),
        remaining > 0 && !paused ==> ({
            let m = if remaining < EXPIRY_TICK_MS { remaining } else { EXPIRY_TICK_MS };
            r == (ExpiryStep::Sleep { millis: m, remaining: (remaining - m) as u64 })
        }),
{
    if remaining == 0 {
        return ExpiryStep::Expire;
    }
    if paused {
        return ExpiryStep::Sleep { millis: EXPIRY_TICK_MS, remaining };
    }
    let m = if remaining < EXPIRY_TICK_MS {
        remaining
    } else {
        EXPIRY_TICK_MS
    };
    ExpiryStep::Sleep { millis: m, remaining: remaining - m }
}

/// The capabilities the server announces.
pub fn capabilities() -> (r: Vec<String>)
    ensures
        views(r@) == seq!["actions"@, "body"@, "body-markup"@, "icon-static"@, "persistence"@],
{
    let mut r: Vec<String> = Vec::new();
    r.push(owned("actions"));
    r.push(owned("body"));
    r.push(owned("body-markup"));
    r.push(owned("icon-static"));
    r.push(owned("persistence"));
    proof {
        assert(views(r@) =~= seq![
            "actions"@,
            "body"@,
            "body-markup"@,
            "icon-static"@,
            "persistence"@,
        ]);
    }
    r
}

} // verus!
