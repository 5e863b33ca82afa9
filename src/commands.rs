use vstd::prelude::*;
use crate::error::{BoothError, Missing};
use crate::model::{Effect, Order, OrderStatus, OrderType, PhotoSession};
use crate::payment::{prepay_id_of, qr_code_url, WeChatService};
use crate::store::{
    effects_of, is_new_order, lemma_patch_lookup, patch_rows, status_rows, with_status, SessionPatch,
    Store, StoreView,
};
use crate::table::{has_key, lemma_lookup_at, lemma_push_fresh, lookup, Row};

verus! {

/// The order type named `s`, if any.
pub open spec fn order_type_named(s: Seq<char>) -> Option<OrderType> {
    if s == OrderType::Download.name_of() {
        Some(OrderType::Download)
    } else if s == OrderType::Print.name_of() {
        Some(OrderType::Print)
    } else {
        None
    }
}

/// The order status named `s`, if any.
pub open spec fn order_status_named(s: Seq<char>) -> Option<OrderStatus> {
    if s == OrderStatus::Pending.name_of() {
        Some(OrderStatus::Pending)
    } else if s == OrderStatus::Paid.name_of() {
        Some(OrderStatus::Paid)
    } else if s == OrderStatus::Cancelled.name_of() {
        Some(OrderStatus::Cancelled)
    } else if s == OrderStatus::Refunded.name_of() {
        Some(OrderStatus::Refunded)
    } else {
        None
    }
}

fn parse_order_type(s: &str) -> (r: Result<OrderType, BoothError>)
    ensures
        match order_type_named(s@) {
            Some(t) => r == Ok::<OrderType, BoothError>(t),
            None => r == Err::<OrderType, BoothError>(BoothError::InvalidArgument),
        },
{
    let r = OrderType::from_str(s);
    proof {
        reveal_strlit("download");
        reveal_strlit("print");
        assert(OrderType::Download.name_of().len() != OrderType::Print.name_of().len());
        if r is Err {
            assert(OrderType::Download.name_of() != s@);
            assert(OrderType::Print.name_of() != s@);
        }
    }
    r
}

fn parse_order_status(s: &str) -> (r: Result<OrderStatus, BoothError>)
    ensures
        match order_status_named(s@) {
            Some(t) => r == Ok::<OrderStatus, BoothError>(t),
            None => r == Err::<OrderStatus, BoothError>(BoothError::InvalidArgument),
        },
{
    let r = OrderStatus::from_str(s);
    proof {
        reveal_strlit("pending");
        reveal_strlit("paid");
        reveal_strlit("cancelled");
        reveal_strlit("refunded");
        assert(OrderStatus::Pending.name_of().len() == 7);
        assert(OrderStatus::Paid.name_of().len() == 4);
        assert(OrderStatus::Cancelled.name_of().len() == 9);
        assert(OrderStatus::Refunded.name_of().len() == 8);
        if r is Err {
            assert(OrderStatus::Pending.name_of() != s@);
            assert(OrderStatus::Paid.name_of() != s@);
            assert(OrderStatus::Cancelled.name_of() != s@);
            assert(OrderStatus::Refunded.name_of() != s@);
        }
    }
    r
}

/// The effects of mode `mode_id`; an unknown mode is not found.
pub fn get_effects(store: &Store, mode_id: &str) -> (r: Result<Vec<Effect>, BoothError>)
    requires
        store.wf(),
    ensures
        match lookup(store@.modes, mode_id@) {
            Some(_) => r is Ok && r->Ok_0@ == effects_of(store@.effects, mode_id@),
            None => r == Err::<Vec<Effect>, BoothError>(BoothError::NotFound(Missing::Mode)),
        },
{
    match store.get_mode_by_id(mode_id) {
        Some(m) => {
            proof {
                lemma_lookup_id(store@.modes, mode_id@);
            }
            Ok(m.effects)
        },
        None => Err(BoothError::NotFound(Missing::Mode)),
    }
}

/// The row found by key `k` has that key.
proof fn lemma_lookup_id<T: Row>(rows: Seq<T>, k: Seq<char>)
    ensures
        lookup(rows, k) is Some ==> lookup(rows, k)->0.key() == k,
{
}

/// Stores the captured photo of session `session_id` and returns the session.
pub fn save_original_photo(store: &mut Store, session_id: &str, photo_base64: &str) -> (r: Result<PhotoSession, BoothError>)
    requires
        old(store).wf(),
    ensures
        final(store).wf(),
        final(store)@ == (StoreView { sessions: final(store)@.sessions, ..old(store)@ }),
        match lookup(old(store)@.sessions, session_id@) {
            Some(s0) => r is Ok && r->Ok_0.id == s0.id && r->Ok_0.status == s0.status
                && r->Ok_0.generated_photo == s0.generated_photo
                && r->Ok_0.original_photo is Some && r->Ok_0.original_photo->0@ == photo_base64@
                && lookup(final(store)@.sessions, session_id@) == Some(r->Ok_0),
            None => r == Err::<PhotoSession, BoothError>(BoothError::NotFound(Missing::Session))
                && final(store)@ == old(store)@,
        },
{
    let ghost before = store@;
    store.save_original_photo(session_id, photo_base64);
    proof {
        let (x, t) = choose|x: String, t: i64|
            x@ == photo_base64@ && #[trigger] patch_rows(before.sessions, session_id@, SessionPatch::OriginalPhoto(x), t)
                == store@.sessions;
        lemma_patch_lookup(before.sessions, session_id@, SessionPatch::OriginalPhoto(x), t);
    }
    match store.get_session(session_id) {
        Some(s) => Ok(s),
        None => Err(BoothError::NotFound(Missing::Session)),
    }
}

/// Creates a pending order for a session; the type must be `download` or `print`.
pub fn create_order(store: &mut Store, session_id: &str, order_type: &str, amount: i32) -> (r: Result<Order, BoothError>)
    requires
        old(store).wf(),
    ensures
        final(store).wf(),
        match order_type_named(order_type@) {
            None => r == Err::<Order, BoothError>(BoothError::InvalidArgument) && final(store)@ == old(store)@,
            Some(t) => match r {
                Ok(o) => is_new_order(o, o.id@, session_id@, t, amount, o.created_at)
                    && !has_key(old(store)@.orders, o.id@)
                    && final(store)@ == (StoreView { orders: old(store)@.orders.push(o), ..old(store)@ }),
                Err(e) => e == BoothError::DuplicateId && final(store)@ == old(store)@,
            },
        },
{
    let t = match parse_order_type(order_type) {
        Ok(t) => t,
        Err(e) => return Err(e),
    };
    store.create_order(session_id, t, amount)
}

/// Moves an order to the named status, recording the provider handle; the
/// status must be `pending`, `paid`, `cancelled` or `refunded`.
pub fn update_order_status(
    store: &mut Store,
    order_id: &str,
    status: &str,
    wechat_order_id: Option<String>,
) -> (r: Result<(), BoothError>)
    requires
        old(store).wf(),
    ensures
        final(store).wf(),
        match order_status_named(status@) {
            None => r == Err::<(), BoothError>(BoothError::InvalidArgument) && final(store)@ == old(store)@,
            Some(st) => r is Ok
                && final(store)@ == (StoreView { orders: final(store)@.orders, ..old(store)@ })
                && exists|t: i64| #[trigger] status_rows(old(store)@.orders, order_id@, st, wechat_order_id, t)
                    == final(store)@.orders,
        },
{
    let st = match parse_order_status(status) {
        Ok(st) => st,
        Err(e) => return Err(e),
    };
    store.update_order_status(order_id, st, wechat_order_id);
    Ok(())
}

/// `after` is `before` with a new pending order `id` for the session, and
/// `code` is the scannable address of a provider handle for that order.
pub open spec fn payment_created(
    before: StoreView,
    after: StoreView,
    id: Seq<char>,
    code: Seq<char>,
    session_id: Seq<char>,
    t: OrderType,
    amount: i32,
) -> bool {
    &&& !has_key(before.orders, id)
    &&& exists|o: Order| #[trigger] is_new_order(o, id, session_id, t, amount, o.created_at)
        && after == (StoreView { orders: before.orders.push(o), ..before })
    &&& exists|millis: i64| code == qr_code_url(#[trigger] prepay_id_of(id, millis as int))
}

/// Starts a payment: checks the order type, creates a pending order and asks
/// the payment client for a scannable code. Returns the order's identifier
/// and the code. An unknown order type creates no order.
pub fn create_payment(
    store: &mut Store,
    wechat: &WeChatService,
    session_id: &str,
    order_type: &str,
    amount: i32,
) -> (r: Result<(String, String), BoothError>)
    requires
        old(store).wf(),
    ensures
        final(store).wf(),
        match order_type_named(order_type@) {
            None => r == Err::<(String, String), BoothError>(BoothError::InvalidArgument)
                && final(store)@ == old(store)@,
            Some(t) => match r {
                Ok((id, code)) => payment_created(old(store)@, final(store)@, id@, code@, session_id@, t, amount),
                Err(e) => e == BoothError::DuplicateId && final(store)@ == old(store)@,
            },
        },
{
    let t = match parse_order_type(order_type) {
        Ok(t) => t,
        Err(e) => return Err(e),
    };
    let ghost before = store@;
    let order = match store.create_order(session_id, t, amount) {
        Ok(o) => o,
        Err(e) => return Err(e),
    };
    let (prepay_id, code) = match wechat.create_order(order.id.as_str(), amount, "AI Photo Download") {
        Ok(p) => p,
        Err(e) => return Err(e),
    };
    proof {
        assert(is_new_order(order, order.id@, session_id@, t, amount, order.created_at)
            && !has_key(before.orders, order.id@)
            && store@ == (StoreView { orders: before.orders.push(order), ..before }));
        let millis = choose|millis: i64| #[trigger] prepay_id_of(order.id@, millis as int) == prepay_id@;
        assert(code@ == qr_code_url(prepay_id_of(order.id@, millis as int)));
        assert(payment_created(before, store@, order.id@, code@, session_id@, t, amount));
    }
    Ok((order.id, code))
}

/// The payment status reported by the payment client for an order.
pub fn query_payment(wechat: &WeChatService, order_id: &str) -> (r: Result<String, BoothError>)
    ensures
        r is Ok && r->Ok_0@ == "SUCCESS"@,
{
    wechat.query_order(order_id)
}

/// A created order reads back by its identifier with every field it was
/// created with, and no provider handle; after a status update it reads back
/// with the supplied status and handle, paid time set exactly when paid, and
/// its other fields unchanged.
pub proof fn law_order_round_trip(s: StoreView, o: Order, status: OrderStatus, handle: Option<String>, t: i64)
    requires
        s.wf(),
        !has_key(s.orders, o.id@),
    ensures
        lookup(s.orders.push(o), o.id@) == Some(o),
        lookup(status_rows(s.orders.push(o), o.id@, status, handle, t), o.id@)
            == Some(with_status(o, status, handle, t)),
{
    lemma_push_fresh(s.orders, o);
    let rows = s.orders.push(o);
    let sr = status_rows(rows, o.id@, status, handle, t);
    let n = s.orders.len() as int;
    assert(rows[n] == o);
    assert forall|a: int, b: int| 0 <= a < sr.len() && 0 <= b < sr.len() && #[trigger] sr[a].key() == #[trigger] sr[b].key()
        implies a == b by {
        assert(rows[a].key() == rows[b].key());
    }
    assert(sr[n] == with_status(o, status, handle, t));
    lemma_lookup_at(sr, n);
}

} // verus!
