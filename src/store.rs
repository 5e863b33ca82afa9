use vstd::prelude::*;
use crate::ambient::{new_id, now_seconds};
use crate::catalog::Catalog;
use crate::error::{BoothError, Missing};
use crate::prompt::{apply_template, styled_prompt};
use crate::text::str_eq;
use crate::model::{
    opt_view,    Effect, ModeRow, Order, PhotoMode, OrderStatus, OrderType, PhotoSession, SessionStatus, Step, Style,
    UserSession,
};
use crate::table::{
    copy_rows, find, has_key, insert_absent, insert_rows, keys_unique,
    lemma_insert_absent_contains, lemma_insert_absent_twice, lemma_insert_absent_unique, lemma_lookup_at, lemma_push_fresh, lookup, position, Row,
};

verus! {

/// The tables of the store, as sequences of rows.
pub struct StoreView {
    pub modes: Seq<ModeRow>,
    pub effects: Seq<Effect>,
    pub styles: Seq<Style>,
    pub sessions: Seq<PhotoSession>,
    pub trackers: Seq<UserSession>,
    pub orders: Seq<Order>,
}

impl StoreView {
    /// Every table has unique keys.
    pub open spec fn wf(self) -> bool {
        &&& keys_unique(self.modes)
        &&& keys_unique(self.effects)
        &&& keys_unique(self.styles)
        &&& keys_unique(self.sessions)
        &&& keys_unique(self.trackers)
        &&& keys_unique(self.orders)
    }
}

/// A change to one field of a session.
pub enum SessionPatch {
    Status(SessionStatus),
    OriginalPhoto(String),
    GeneratedPhoto(String),
    StyleId(String),
}

/// `s` with `p` applied and its update time set to `now`.
pub open spec fn patched(s: PhotoSession, p: SessionPatch, now: i64) -> PhotoSession {
    match p {
        SessionPatch::Status(st) => PhotoSession { status: st, updated_at: now, ..s },
        SessionPatch::OriginalPhoto(x) => PhotoSession { original_photo: Some(x), updated_at: now, ..s },
        SessionPatch::GeneratedPhoto(x) => PhotoSession { generated_photo: Some(x), updated_at: now, ..s },
        SessionPatch::StyleId(x) => PhotoSession { style_id: Some(x), updated_at: now, ..s },
    }
}

/// The session table after patching the row with key `id`; without such a
/// row the table is unchanged.
pub open spec fn patch_rows(rows: Seq<PhotoSession>, id: Seq<char>, p: SessionPatch, now: i64) -> Seq<PhotoSession> {
    rows.map_values(|s: PhotoSession| if s.id@ == id { patched(s, p, now) } else { s })
}

/// Patching keeps keys unique, changes the row with key `id` by `patched`,
/// and leaves every other key's row as it was.
pub proof fn lemma_patch_lookup(rows: Seq<PhotoSession>, id: Seq<char>, p: SessionPatch, now: i64)
    requires
        keys_unique(rows),
    ensures
        keys_unique(patch_rows(rows, id, p, now)),
        lookup(patch_rows(rows, id, p, now), id) == match lookup(rows, id) {
            Some(s) => Some(patched(s, p, now)),
            None => None,
        },
        forall|k: Seq<char>| k != id ==> #[trigger] lookup(patch_rows(rows, id, p, now), k) == lookup(rows, k),
        lookup(rows, id) is None ==> patch_rows(rows, id, p, now) == rows,
{
    let pr = patch_rows(rows, id, p, now);
    if !has_key(rows, id) {
        assert forall|j: int| 0 <= j < rows.len() implies #[trigger] pr[j] == rows[j] by {
            assert(rows[j].key() != id);
        }
        assert(pr =~= rows);
    }
    assert forall|j: int| 0 <= j < rows.len() implies #[trigger] pr[j].key() == rows[j].key() by {}
    assert forall|a: int, b: int|
        0 <= a < pr.len() && 0 <= b < pr.len() && #[trigger] pr[a].key() == #[trigger] pr[b].key()
        implies a == b by {
        assert(rows[a].key() == rows[b].key());
    }
    assert forall|k: Seq<char>| #[trigger] lookup(pr, k) == match lookup(rows, k) {
        Some(s) => if k == id { Some(patched(s, p, now)) } else { Some(s) },
        None => None,
    } by {
        if has_key(rows, k) {
            let i = choose|i: int| 0 <= i < rows.len() && #[trigger] rows[i].key() == k;
            lemma_lookup_at(rows, i);
            assert(pr[i].key() == rows[i].key());
            lemma_lookup_at(pr, i);
        } else {
            assert forall|j: int| 0 <= j < pr.len() implies #[trigger] pr[j].key() != k by {
                assert(pr[j].key() == rows[j].key());
            }
        }
    }
    assert(lookup(pr, id) == match lookup(rows, id) {
        Some(s) => if id == id { Some(patched(s, p, now)) } else { Some(s) },
        None => None,
    });
}

/// A session just opened with the given identifiers at time `now`.
pub open spec fn is_new_session(s: PhotoSession, id: Seq<char>, mode_id: Seq<char>, effect_id: Seq<char>, now: i64) -> bool {
    &&& s.id@ == id
    &&& s.mode_id@ == mode_id
    &&& s.effect_id@ == effect_id
    &&& s.style_id is None
    &&& s.original_photo is None
    &&& s.generated_photo is None
    &&& s.status == SessionStatus::SelectingMode
    &&& s.created_at == now
    &&& s.updated_at == now
}

/// The progress record written beside a new session.
pub open spec fn is_new_tracker(u: UserSession, id: Seq<char>, mode_id: Seq<char>, effect_id: Seq<char>, now: i64) -> bool {
    &&& u.session_id@ == id
    &&& u.current_step == Step::SelectMode
    &&& opt_view(u.mode_id) == Some(mode_id)
    &&& opt_view(u.effect_id) == Some(effect_id)
    &&& u.expires_at == if now <= i64::MAX - 3600 { now + 3600 } else { i64::MAX as int }
}

/// A pending order just created with the given fields at time `now`.
pub open spec fn is_new_order(o: Order, id: Seq<char>, session_id: Seq<char>, order_type: OrderType, amount: i32, now: i64) -> bool {
    &&& o.id@ == id
    &&& o.session_id@ == session_id
    &&& o.order_type == order_type
    &&& o.amount == amount
    &&& o.status == OrderStatus::Pending
    &&& o.wechat_order_id is None
    &&& o.payment_time is None
    &&& o.created_at == now
}

/// `o` moved to `status` with provider handle `handle` at time `now`: the
/// payment time is set exactly when the new status is `Paid`.
pub open spec fn with_status(o: Order, status: OrderStatus, handle: Option<String>, now: i64) -> Order {
    Order {
        status,
        wechat_order_id: handle,
        payment_time: if status == OrderStatus::Paid { Some(now) } else { None },
        ..o
    }
}

/// The order table after moving the row with key `id` to `status`; without
/// such a row the table is unchanged.
pub open spec fn status_rows(rows: Seq<Order>, id: Seq<char>, status: OrderStatus, handle: Option<String>, now: i64) -> Seq<Order> {
    rows.map_values(|o: Order| if o.id@ == id { with_status(o, status, handle, now) } else { o })
}

/// The effects of `effects` that belong to mode `mode_id`, in table order.
pub open spec fn effects_of(effects: Seq<Effect>, mode_id: Seq<char>) -> Seq<Effect>
    decreases effects.len(),
{
    if effects.len() == 0 {
        Seq::empty()
    } else {
        let prev = effects_of(effects.drop_last(), mode_id);
        if effects.last().mode_id@ == mode_id {
            prev.push(effects.last())
        } else {
            prev
        }
    }
}

/// `m` read back with `effects` attached.
pub open spec fn mode_read(r: PhotoMode, m: ModeRow, effects: Seq<Effect>) -> bool {
    &&& r.id == m.id
    &&& r.name == m.name
    &&& r.description == m.description
    &&& r.icon == m.icon
    &&& r.effects@ == effects
}

/// The number of leading orders of `s` created no earlier than `t`.
pub open spec fn count_not_older(s: Seq<Order>, t: i64) -> nat
    decreases s.len(),
{
    if s.len() == 0 || s[0].created_at < t {
        0
    } else {
        1 + count_not_older(s.drop_first(), t)
    }
}

/// `s` with `o` placed after every leading order no older than it.
pub open spec fn insert_by_time(s: Seq<Order>, o: Order) -> Seq<Order> {
    s.insert(count_not_older(s, o.created_at) as int, o)
}

/// The orders of session `session_id`, newest first; orders created at the
/// same time keep their table order.
pub open spec fn orders_newest_first(rows: Seq<Order>, session_id: Seq<char>) -> Seq<Order>
    decreases rows.len(),
{
    if rows.len() == 0 {
        Seq::empty()
    } else {
        let prev = orders_newest_first(rows.drop_last(), session_id);
        if rows.last().session_id@ == session_id {
            insert_by_time(prev, rows.last())
        } else {
            prev
        }
    }
}

/// `s` is ordered newest first.
pub open spec fn is_newest_first(s: Seq<Order>) -> bool {
    forall|i: int, j: int| 0 <= i < j < s.len() ==> #[trigger] s[i].created_at >= #[trigger] s[j].created_at
}

proof fn lemma_count_bounds(s: Seq<Order>, t: i64)
    ensures
        count_not_older(s, t) <= s.len(),
        forall|k: int| 0 <= k < count_not_older(s, t) ==> #[trigger] s[k].created_at >= t,
        count_not_older(s, t) < s.len() ==> s[count_not_older(s, t) as int].created_at < t,
    decreases s.len(),
{
    if s.len() > 0 && s[0].created_at >= t {
        let d = s.drop_first();
        lemma_count_bounds(d, t);
        assert forall|k: int| 0 <= k < count_not_older(s, t) implies #[trigger] s[k].created_at >= t by {
            if k > 0 {
                assert(s[k] == d[k - 1]);
            }
        }
        if count_not_older(s, t) < s.len() {
            assert(s[count_not_older(s, t) as int] == d[count_not_older(d, t) as int]);
        }
    }
}

proof fn lemma_insert_by_time(s: Seq<Order>, o: Order)
    requires
        is_newest_first(s),
    ensures
        is_newest_first(insert_by_time(s, o)),
        insert_by_time(s, o).len() == s.len() + 1,
        insert_by_time(s, o).contains(o),
        forall|x: Order| s.contains(x) ==> #[trigger] insert_by_time(s, o).contains(x),
        forall|x: Order| #[trigger] insert_by_time(s, o).contains(x) ==> x == o || s.contains(x),
{
    let c = count_not_older(s, o.created_at) as int;
    lemma_count_bounds(s, o.created_at);
    let r = s.insert(c, o);
    assert forall|i: int, j: int| 0 <= i < j < r.len() implies #[trigger] r[i].created_at >= #[trigger] r[j].created_at by {
        if j < c {
        } else if j == c {
        } else if i < c {
            assert(r[j] == s[j - 1]);
            if j - 1 > c {
                assert(s[c].created_at >= s[j - 1].created_at);
            }
        } else if i == c {
            assert(r[j] == s[j - 1]);
            if j - 1 > c {
                assert(s[c].created_at >= s[j - 1].created_at);
            }
        } else {
            assert(r[i] == s[i - 1] && r[j] == s[j - 1]);
        }
    }
    assert(r[c] == o);
    assert forall|x: Order| s.contains(x) implies #[trigger] r.contains(x) by {
        let k = choose|k: int| 0 <= k < s.len() && s[k] == x;
        if k < c {
            assert(r[k] == x);
        } else {
            assert(r[k + 1] == x);
        }
    }
    assert forall|x: Order| #[trigger] r.contains(x) implies x == o || s.contains(x) by {
        let k = choose|k: int| 0 <= k < r.len() && r[k] == x;
        if k < c {
            assert(s[k] == x);
        } else if k > c {
            assert(s[k - 1] == x);
        }
    }
}

/// The orders listed for a session are ordered newest first, and they are
/// exactly the session's orders of the table.
pub proof fn lemma_orders_newest_first(rows: Seq<Order>, session_id: Seq<char>)
    ensures
        is_newest_first(orders_newest_first(rows, session_id)),
        forall|o: Order| #[trigger] orders_newest_first(rows, session_id).contains(o)
            <==> (rows.contains(o) && o.session_id@ == session_id),
    decreases rows.len(),
{
    if rows.len() > 0 {
        let d = rows.drop_last();
        lemma_orders_newest_first(d, session_id);
        let prev = orders_newest_first(d, session_id);
        assert forall|o: Order| rows.contains(o) <==> (d.contains(o) || o == rows.last()) by {
            if rows.contains(o) {
                let k = choose|k: int| 0 <= k < rows.len() && rows[k] == o;
                if k < rows.len() - 1 {
                    assert(d[k] == o);
                }
            }
            if d.contains(o) {
                let k = choose|k: int| 0 <= k < d.len() && d[k] == o;
                assert(rows[k] == o);
            }
            if o == rows.last() {
                assert(rows[rows.len() - 1] == o);
            }
        }
        if rows.last().session_id@ == session_id {
            lemma_insert_by_time(prev, rows.last());
        }
    }
}

proof fn lemma_count_not_older(s: Seq<Order>, t: i64, j: int)
    requires
        0 <= j <= s.len(),
        forall|k: int| 0 <= k < j ==> #[trigger] s[k].created_at >= t,
        j == s.len() || s[j].created_at < t,
    ensures
        count_not_older(s, t) == j,
    decreases j,
{
    if j > 0 {
        let d = s.drop_first();
        assert forall|k: int| 0 <= k < j - 1 implies #[trigger] d[k].created_at >= t by {
            assert(d[k] == s[k + 1]);
        }
        if j < s.len() {
            assert(d[j - 1] == s[j]);
        }
        lemma_count_not_older(d, t, j - 1);
    }
}

/// The store after inserting each catalog row whose key is absent.
pub open spec fn seeded(s: StoreView, modes: Seq<ModeRow>, effects: Seq<Effect>, styles: Seq<Style>) -> StoreView {
    StoreView {
        modes: insert_absent(s.modes, modes),
        effects: insert_absent(s.effects, effects),
        styles: insert_absent(s.styles, styles),
        ..s
    }
}

/// Seeding the same catalog a second time, as at a second start-up, changes
/// nothing: each catalog key is present after the first seeding and stays
/// present exactly once, since keys stay unique.
pub proof fn law_seed_twice(s: StoreView, modes: Seq<ModeRow>, effects: Seq<Effect>, styles: Seq<Style>)
    requires
        s.wf(),
    ensures
        seeded(seeded(s, modes, effects, styles), modes, effects, styles) == seeded(s, modes, effects, styles),
        seeded(s, modes, effects, styles).wf(),
        forall|i: int| 0 <= i < modes.len() ==> has_key(seeded(s, modes, effects, styles).modes, #[trigger] modes[i].key()),
        forall|i: int| 0 <= i < effects.len() ==> has_key(seeded(s, modes, effects, styles).effects, #[trigger] effects[i].key()),
        forall|i: int| 0 <= i < styles.len() ==> has_key(seeded(s, modes, effects, styles).styles, #[trigger] styles[i].key()),
{
    lemma_insert_absent_twice(s.modes, modes);
    lemma_insert_absent_twice(s.effects, effects);
    lemma_insert_absent_twice(s.styles, styles);
    lemma_insert_absent_unique(s.modes, modes);
    lemma_insert_absent_unique(s.effects, effects);
    lemma_insert_absent_unique(s.styles, styles);
    assert forall|i: int| 0 <= i < modes.len() implies has_key(insert_absent(s.modes, modes), #[trigger] modes[i].key()) by {
        lemma_insert_absent_contains(s.modes, modes, i);
    }
    assert forall|i: int| 0 <= i < effects.len() implies has_key(insert_absent(s.effects, effects), #[trigger] effects[i].key()) by {
        lemma_insert_absent_contains(s.effects, effects, i);
    }
    assert forall|i: int| 0 <= i < styles.len() implies has_key(insert_absent(s.styles, styles), #[trigger] styles[i].key()) by {
        lemma_insert_absent_contains(s.styles, styles, i);
    }
}

/// An in-memory store of the catalog, sessions and orders.
pub struct Store {
    modes: Vec<ModeRow>,
    effects: Vec<Effect>,
    styles: Vec<Style>,
    sessions: Vec<PhotoSession>,
    trackers: Vec<UserSession>,
    orders: Vec<Order>,
}

impl View for Store {
    type V = StoreView;

    closed spec fn view(&self) -> StoreView {
        StoreView {
            modes: self.modes@,
            effects: self.effects@,
            styles: self.styles@,
            sessions: self.sessions@,
            trackers: self.trackers@,
            orders: self.orders@,
        }
    }
}

impl Store {
    pub open spec fn wf(&self) -> bool {
        self@.wf()
    }

    /// An empty store.
    pub fn new() -> (r: Store)
        ensures
            r.wf(),
            r@.modes.len() == 0,
            r@.effects.len() == 0,
            r@.styles.len() == 0,
            r@.sessions.len() == 0,
            r@.trackers.len() == 0,
            r@.orders.len() == 0,
    {
        Store {
            modes: Vec::new(),
            effects: Vec::new(),
            styles: Vec::new(),
            sessions: Vec::new(),
            trackers: Vec::new(),
            orders: Vec::new(),
        }
    }

    /// The session with key `id`.
    pub fn get_session(&self, id: &str) -> (r: Option<PhotoSession>)
        requires
            self.wf(),
        ensures
            r == lookup(self@.sessions, id@),
    {
        find(&self.sessions, id)
    }

    /// Opens a session with the given identifiers at time `now`, with its
    /// progress record under `tracker_id`. Fails, changing nothing, when
    /// either identifier is already taken.
    pub fn insert_session(
        &mut self,
        id: String,
        tracker_id: String,
        mode_id: &str,
        effect_id: &str,
        now: i64,
    ) -> (r: Result<PhotoSession, BoothError>)
        requires
            old(self).wf(),
        ensures
            final(self).wf(),
            match r {
                Ok(s) => {
                    &&& !has_key(old(self)@.sessions, id@)
                    &&& !has_key(old(self)@.trackers, tracker_id@)
                    &&& is_new_session(s, id@, mode_id@, effect_id@, now)
                    &&& final(self)@.sessions == old(self)@.sessions.push(s)
                    &&& exists|u: UserSession|
                        is_new_tracker(u, tracker_id@, mode_id@, effect_id@, now)
                            && final(self)@.trackers == old(self)@.trackers.push(u)
                    &&& final(self)@.modes == old(self)@.modes
                    &&& final(self)@.effects == old(self)@.effects
                    &&& final(self)@.styles == old(self)@.styles
                    &&& final(self)@.orders == old(self)@.orders
                },
                Err(e) => {
                    &&& e == BoothError::DuplicateId
                    &&& has_key(old(self)@.sessions, id@) || has_key(old(self)@.trackers, tracker_id@)
                    &&& final(self)@ == old(self)@
                },
            },
    {
        if position(&self.sessions, id.as_str()).is_some()
            || position(&self.trackers, tracker_id.as_str()).is_some() {
            return Err(BoothError::DuplicateId);
        }
        let expires_at: i64 = if now <= i64::MAX - 3600 { now + 3600 } else { i64::MAX };
        let tracker = UserSession {
            session_id: tracker_id,
            current_step: Step::SelectMode,
            mode_id: Some(String::from_str(mode_id)),
            effect_id: Some(String::from_str(effect_id)),
            expires_at,
        };
        let session = PhotoSession {
            id,
            mode_id: String::from_str(mode_id),
            effect_id: String::from_str(effect_id),
            style_id: None,
            original_photo: None,
            generated_photo: None,
            status: SessionStatus::SelectingMode,
            created_at: now,
            updated_at: now,
        };
        proof {
            lemma_push_fresh(self.sessions@, session);
            lemma_push_fresh(self.trackers@, tracker);
        }
        let r = session.clone();
        self.sessions.push(session);
        self.trackers.push(tracker);
        Ok(r)
    }

    /// Opens a session under fresh random identifiers at the current time.
    pub fn create_session(&mut self, mode_id: &str, effect_id: &str) -> (r: Result<PhotoSession, BoothError>)
        requires
            old(self).wf(),
        ensures
            final(self).wf(),
            match r {
                Ok(s) => {
                    &&& !has_key(old(self)@.sessions, s.id@)
                    &&& is_new_session(s, s.id@, mode_id@, effect_id@, s.created_at)
                    &&& final(self)@.sessions == old(self)@.sessions.push(s)
                    &&& final(self)@.orders == old(self)@.orders
                },
                Err(e) => e == BoothError::DuplicateId && final(self)@ == old(self)@,
            },
    {
        let id = new_id();
        let tracker_id = new_id();
        let now = now_seconds();
        self.insert_session(id, tracker_id, mode_id, effect_id, now)
    }

    /// Applies `p` at time `now` to the session with key `id`, if there is one.
    pub fn patch_session(&mut self, id: &str, p: SessionPatch, now: i64)
        requires
            old(self).wf(),
        ensures
            final(self).wf(),
            final(self)@ == (StoreView { sessions: patch_rows(old(self)@.sessions, id@, p, now), ..old(self)@ }),
    {
        let ghost rows = self.sessions@;
        let ghost target = patch_rows(rows, id@, p, now);
        match position(&self.sessions, id) {
            Some(i) => {
                let old_s = self.sessions[i].clone();
                let new_s = match p {
                    SessionPatch::Status(st) => PhotoSession { status: st, updated_at: now, ..old_s },
                    SessionPatch::OriginalPhoto(x) => PhotoSession { original_photo: Some(x), updated_at: now, ..old_s },
                    SessionPatch::GeneratedPhoto(x) => PhotoSession { generated_photo: Some(x), updated_at: now, ..old_s },
                    SessionPatch::StyleId(x) => PhotoSession { style_id: Some(x), updated_at: now, ..old_s },
                };
                assert(new_s == patched(rows[i as int], p, now));
                self.sessions.set(i, new_s);
                assert forall|j: int| 0 <= j < rows.len() implies #[trigger] self.sessions@[j]
                    == target[j] by {
                    if j != i {
                        assert(rows[j].key() != rows[i as int].key());
                    }
                }
                assert(self.sessions@ =~= target);
                assert forall|a: int, b: int|
                    0 <= a < self.sessions@.len() && 0 <= b < self.sessions@.len()
                        && #[trigger] self.sessions@[a].key() == #[trigger] self.sessions@[b].key()
                    implies a == b by {
                    assert(rows[a].key() == rows[b].key());
                }
            },
            None => {
                assert forall|j: int| 0 <= j < rows.len() implies #[trigger] rows[j] == target[j] by {
                    assert(rows[j].key() != id@);
                }
                assert(rows =~= target);
            },
        }
    }

    /// Sets the status of the session with key `id`, stamping the current time.
    pub fn update_session_status(&mut self, id: &str, status: SessionStatus)
        requires
            old(self).wf(),
        ensures
            final(self).wf(),
            final(self)@ == (StoreView { sessions: final(self)@.sessions, ..old(self)@ }),
            exists|t: i64|
                #[trigger] patch_rows(old(self)@.sessions, id@, SessionPatch::Status(status), t)
                    == final(self)@.sessions,
    {
        let now = now_seconds();
        self.patch_session(id, SessionPatch::Status(status), now);
    }

    /// Stores the captured photo of the session with key `id`.
    pub fn save_original_photo(&mut self, id: &str, photo_base64: &str)
        requires
            old(self).wf(),
        ensures
            final(self).wf(),
            final(self)@ == (StoreView { sessions: final(self)@.sessions, ..old(self)@ }),
            exists|x: String, t: i64|
                x@ == photo_base64@ && #[trigger] patch_rows(old(self)@.sessions, id@, SessionPatch::OriginalPhoto(x), t)
                    == final(self)@.sessions,
    {
        let now = now_seconds();
        self.patch_session(id, SessionPatch::OriginalPhoto(String::from_str(photo_base64)), now);
    }

    /// Stores the generated photo of the session with key `id`.
    pub fn save_generated_photo(&mut self, id: &str, photo_base64: &str)
        requires
            old(self).wf(),
        ensures
            final(self).wf(),
            final(self)@ == (StoreView { sessions: final(self)@.sessions, ..old(self)@ }),
            exists|x: String, t: i64|
                x@ == photo_base64@ && #[trigger] patch_rows(old(self)@.sessions, id@, SessionPatch::GeneratedPhoto(x), t)
                    == final(self)@.sessions,
    {
        let now = now_seconds();
        self.patch_session(id, SessionPatch::GeneratedPhoto(String::from_str(photo_base64)), now);
    }

    /// Records the style chosen for the session with key `id`.
    pub fn update_session_style(&mut self, id: &str, style_id: &str)
        requires
            old(self).wf(),
        ensures
            final(self).wf(),
            final(self)@ == (StoreView { sessions: final(self)@.sessions, ..old(self)@ }),
            exists|x: String, t: i64|
                x@ == style_id@ && #[trigger] patch_rows(old(self)@.sessions, id@, SessionPatch::StyleId(x), t)
                    == final(self)@.sessions,
    {
        let now = now_seconds();
        self.patch_session(id, SessionPatch::StyleId(String::from_str(style_id)), now);
    }

    /// Creates a pending order with identifier `id` at time `now`. Fails,
    /// changing nothing, when `id` is already taken.
    pub fn insert_order(
        &mut self,
        id: String,
        session_id: &str,
        order_type: OrderType,
        amount: i32,
        now: i64,
    ) -> (r: Result<Order, BoothError>)
        requires
            old(self).wf(),
        ensures
            final(self).wf(),
            match r {
                Ok(o) => {
                    &&& !has_key(old(self)@.orders, id@)
                    &&& is_new_order(o, id@, session_id@, order_type, amount, now)
                    &&& final(self)@ == (StoreView { orders: old(self)@.orders.push(o), ..old(self)@ })
                },
                Err(e) => {
                    &&& e == BoothError::DuplicateId
                    &&& has_key(old(self)@.orders, id@)
                    &&& final(self)@ == old(self)@
                },
            },
    {
        if position(&self.orders, id.as_str()).is_some() {
            return Err(BoothError::DuplicateId);
        }
        let order = Order {
            id,
            session_id: String::from_str(session_id),
            order_type,
            amount,
            status: OrderStatus::Pending,
            wechat_order_id: None,
            payment_time: None,
            created_at: now,
        };
        proof {
            lemma_push_fresh(self.orders@, order);
        }
        let r = order.clone();
        self.orders.push(order);
        Ok(r)
    }

    /// Creates a pending order under a fresh random identifier at the current time.
    pub fn create_order(&mut self, session_id: &str, order_type: OrderType, amount: i32) -> (r: Result<Order, BoothError>)
        requires
            old(self).wf(),
        ensures
            final(self).wf(),
            match r {
                Ok(o) => {
                    &&& !has_key(old(self)@.orders, o.id@)
                    &&& is_new_order(o, o.id@, session_id@, order_type, amount, o.created_at)
                    &&& final(self)@ == (StoreView { orders: old(self)@.orders.push(o), ..old(self)@ })
                },
                Err(e) => e == BoothError::DuplicateId && final(self)@ == old(self)@,
            },
    {
        let id = new_id();
        let now = now_seconds();
        self.insert_order(id, session_id, order_type, amount, now)
    }

    /// The order with key `id`.
    pub fn get_order(&self, id: &str) -> (r: Option<Order>)
        requires
            self.wf(),
        ensures
            r == lookup(self@.orders, id@),
    {
        find(&self.orders, id)
    }

    /// Moves the order with key `id` to `status` at time `now`, recording the
    /// provider handle; the payment time is set exactly for `Paid`.
    pub fn set_order_status(&mut self, id: &str, status: OrderStatus, handle: Option<String>, now: i64)
        requires
            old(self).wf(),
        ensures
            final(self).wf(),
            final(self)@ == (StoreView { orders: status_rows(old(self)@.orders, id@, status, handle, now), ..old(self)@ }),
    {
        let ghost rows = self.orders@;
        let ghost target = status_rows(rows, id@, status, handle, now);
        match position(&self.orders, id) {
            Some(i) => {
                let old_o = self.orders[i].clone();
                let payment_time = if status == OrderStatus::Paid { Some(now) } else { None };
                let new_o = Order { status, wechat_order_id: handle, payment_time, ..old_o };
                assert(new_o == with_status(rows[i as int], status, handle, now));
                self.orders.set(i, new_o);
                assert forall|j: int| 0 <= j < rows.len() implies #[trigger] self.orders@[j]
                    == target[j] by {
                    if j != i {
                        assert(rows[j].key() != rows[i as int].key());
                    }
                }
                assert(self.orders@ =~= target);
                assert forall|a: int, b: int|
                    0 <= a < self.orders@.len() && 0 <= b < self.orders@.len()
                        && #[trigger] self.orders@[a].key() == #[trigger] self.orders@[b].key()
                    implies a == b by {
                    assert(rows[a].key() == rows[b].key());
                }
            },
            None => {
                assert forall|j: int| 0 <= j < rows.len() implies #[trigger] rows[j] == target[j] by {
                    assert(rows[j].key() != id@);
                }
                assert(rows =~= target);
            },
        }
    }

    /// Moves the order with key `id` to `status` at the current time.
    pub fn update_order_status(&mut self, id: &str, status: OrderStatus, wechat_order_id: Option<String>)
        requires
            old(self).wf(),
        ensures
            final(self).wf(),
            final(self)@ == (StoreView { orders: final(self)@.orders, ..old(self)@ }),
            exists|t: i64|
                #[trigger] status_rows(old(self)@.orders, id@, status, wechat_order_id, t)
                    == final(self)@.orders,
    {
        let now = now_seconds();
        self.set_order_status(id, status, wechat_order_id, now);
    }

    /// The orders of session `session_id`, newest first.
    pub fn get_orders(&self, session_id: &str) -> (r: Vec<Order>)
        requires
            self.wf(),
        ensures
            r@ == orders_newest_first(self@.orders, session_id@),
            is_newest_first(r@),
            forall|o: Order| #[trigger] r@.contains(o) <==> (self@.orders.contains(o) && o.session_id@ == session_id@),
    {
        proof {
            lemma_orders_newest_first(self@.orders, session_id@);
        }
        let mut out: Vec<Order> = Vec::new();
        let mut i: usize = 0;
        while i < self.orders.len()
            invariant
                0 <= i <= self.orders@.len(),
                out@ == orders_newest_first(self.orders@.subrange(0, i as int), session_id@),
            decreases self.orders@.len() - i,
        {
            let ghost prefix = self.orders@.subrange(0, i as int + 1);
            assert(prefix.drop_last() =~= self.orders@.subrange(0, i as int));
            let o = &self.orders[i];
            if str_eq(o.session_id.as_str(), session_id) {
                let t = o.created_at;
                let mut j: usize = 0;
                while j < out.len() && out[j].created_at >= t
                    invariant
                        0 <= j <= out@.len(),
                        forall|k: int| 0 <= k < j ==> #[trigger] out@[k].created_at >= t,
                    decreases out@.len() - j,
                {
                    j = j + 1;
                }
                proof {
                    lemma_count_not_older(out@, t, j as int);
                }
                out.insert(j, o.clone());
            }
            i = i + 1;
        }
        assert(self.orders@.subrange(0, self.orders@.len() as int) =~= self.orders@);
        out
    }

    /// The effects of mode `mode_id`, in table order.
    pub fn get_effects_by_mode(&self, mode_id: &str) -> (r: Vec<Effect>)
        requires
            self.wf(),
        ensures
            r@ == effects_of(self@.effects, mode_id@),
    {
        let mut out: Vec<Effect> = Vec::new();
        let mut i: usize = 0;
        while i < self.effects.len()
            invariant
                0 <= i <= self.effects@.len(),
                out@ == effects_of(self.effects@.subrange(0, i as int), mode_id@),
            decreases self.effects@.len() - i,
        {
            let ghost prefix = self.effects@.subrange(0, i as int + 1);
            assert(prefix.drop_last() =~= self.effects@.subrange(0, i as int));
            if str_eq(self.effects[i].mode_id.as_str(), mode_id) {
                out.push(self.effects[i].clone());
            }
            i = i + 1;
        }
        assert(self.effects@.subrange(0, self.effects@.len() as int) =~= self.effects@);
        out
    }

    fn read_mode(&self, m: &ModeRow) -> (r: PhotoMode)
        requires
            self.wf(),
        ensures
            mode_read(r, *m, effects_of(self@.effects, m.id@)),
    {
        PhotoMode {
            id: m.id.clone(),
            name: m.name.clone(),
            description: m.description.clone(),
            icon: m.icon.clone(),
            effects: self.get_effects_by_mode(m.id.as_str()),
        }
    }

    /// Every mode, in table order, each with its effects.
    pub fn get_all_modes(&self) -> (r: Vec<PhotoMode>)
        requires
            self.wf(),
        ensures
            r@.len() == self@.modes.len(),
            forall|i: int| 0 <= i < r@.len() ==> #[trigger] mode_read(
                r@[i],
                self@.modes[i],
                effects_of(self@.effects, self@.modes[i].id@),
            ),
    {
        let mut out: Vec<PhotoMode> = Vec::new();
        let mut i: usize = 0;
        while i < self.modes.len()
            invariant
                self.wf(),
                0 <= i <= self.modes@.len(),
                out@.len() == i,
                forall|k: int| 0 <= k < i ==> #[trigger] mode_read(
                    out@[k],
                    self.modes@[k],
                    effects_of(self.effects@, self.modes@[k].id@),
                ),
            decreases self.modes@.len() - i,
        {
            let m = self.read_mode(&self.modes[i]);
            out.push(m);
            i = i + 1;
        }
        out
    }

    /// The mode with key `id`, with its effects.
    pub fn get_mode_by_id(&self, id: &str) -> (r: Option<PhotoMode>)
        requires
            self.wf(),
        ensures
            match r {
                Some(m) => lookup(self@.modes, id@) is Some && mode_read(
                    m,
                    lookup(self@.modes, id@)->0,
                    effects_of(self@.effects, id@),
                ),
                None => lookup(self@.modes, id@) is None,
            },
    {
        match position(&self.modes, id) {
            Some(i) => {
                proof {
                    lemma_lookup_at(self.modes@, i as int);
                }
                Some(self.read_mode(&self.modes[i]))
            },
            None => None,
        }
    }

    /// Every style, in table order.
    pub fn get_all_styles(&self) -> (r: Vec<Style>)
        ensures
            r@ == self@.styles,
    {
        copy_rows(&self.styles)
    }

    /// The style with key `id`.
    pub fn get_style_by_id(&self, id: &str) -> (r: Option<Style>)
        requires
            self.wf(),
        ensures
            r == lookup(self@.styles, id@),
    {
        find(&self.styles, id)
    }

    /// The prompt template of style `style_id` with `original_description`
    /// put in its description slot.
    pub fn generate_prompt(&self, style_id: &str, original_description: &str) -> (r: Result<String, BoothError>)
        requires
            self.wf(),
        ensures
            match lookup(self@.styles, style_id@) {
                Some(s) => r is Ok && r->Ok_0@ == styled_prompt(s.prompt_template@, original_description@),
                None => r == Err::<String, BoothError>(BoothError::NotFound(Missing::Style)),
            },
    {
        match self.get_style_by_id(style_id) {
            Some(s) => Ok(apply_template(s.prompt_template.as_str(), original_description)),
            None => Err(BoothError::NotFound(Missing::Style)),
        }
    }

    /// Inserts each catalog row whose key is not present yet.
    pub fn seed(&mut self, catalog: &Catalog)
        requires
            old(self).wf(),
        ensures
            final(self).wf(),
            final(self)@ == seeded(old(self)@, catalog.modes@, catalog.effects@, catalog.styles@),
    {
        insert_rows(&mut self.modes, &catalog.modes);
        insert_rows(&mut self.effects, &catalog.effects);
        insert_rows(&mut self.styles, &catalog.styles);
    }

    /// The effect with key `id`.
    pub fn get_effect(&self, id: &str) -> (r: Option<Effect>)
        requires
            self.wf(),
        ensures
            r == lookup(self@.effects, id@),
    {
        find(&self.effects, id)
    }

    /// Adds previously saved sessions, progress records and orders whose
    /// keys are not present yet.
    pub fn restore(&mut self, sessions: &Vec<PhotoSession>, trackers: &Vec<UserSession>, orders: &Vec<Order>)
        requires
            old(self).wf(),
        ensures
            final(self).wf(),
            final(self)@ == (StoreView {
                sessions: insert_absent(old(self)@.sessions, sessions@),
                trackers: insert_absent(old(self)@.trackers, trackers@),
                orders: insert_absent(old(self)@.orders, orders@),
                ..old(self)@
            }),
    {
        insert_rows(&mut self.sessions, sessions);
        insert_rows(&mut self.trackers, trackers);
        insert_rows(&mut self.orders, orders);
    }

    /// Every progress record, in table order.
    pub fn get_user_sessions(&self) -> (r: Vec<UserSession>)
        ensures
            r@ == self@.trackers,
    {
        copy_rows(&self.trackers)
    }
}

} // verus!
