use uuid::Uuid;
use vstd::prelude::*;

verus! {

/// uuid's `Uuid`, carried through as an opaque identifier of subscribers and
/// users; nothing is read from inside it.
#[verifier::external_type_specification]
#[verifier::external_body]
pub struct ExUuid(Uuid);

/// Where a subscriber stands; it only ever moves from pending to confirmed.
#[derive(Clone, Copy, PartialEq, Eq, Structural)]
pub enum SubscriptionStatus {
    PendingConfirmation,
    Confirmed,
}

impl SubscriptionStatus {
    /// The value stored in the `status` column.
    pub fn as_str(&self) -> (r: &'static str)
        ensures
            r@ == (match self {
                SubscriptionStatus::PendingConfirmation => "pending_confirmation"@,
                SubscriptionStatus::Confirmed => "confirmed"@,
            }),
    {
        match self {
            SubscriptionStatus::PendingConfirmation => "pending_confirmation",
            SubscriptionStatus::Confirmed => "confirmed",
        }
    }
}

/// One subscriber row, as the store holds it.
pub struct SubscriberRecord {
    pub email: Seq<char>,
    pub name: Seq<char>,
    pub status: SubscriptionStatus,
}

/// The committed content of the subscriber store: subscriber rows by id, and
/// the subscriber that each confirmation token belongs to.
pub struct StoreState {
    pub subscribers: Map<Uuid, SubscriberRecord>,
    pub tokens: Map<Seq<char>, Uuid>,
}

/// The writes made so far inside one open transaction.
pub struct PendingWrites {
    pub subscriber: Option<(Uuid, SubscriberRecord)>,
    pub token: Option<(Seq<char>, Uuid)>,
}

impl PendingWrites {
    pub open spec fn empty() -> PendingWrites {
        PendingWrites { subscriber: None, token: None }
    }
}

/// The store once the writes of a transaction are committed.
pub open spec fn commit(s: StoreState, w: PendingWrites) -> StoreState {
    StoreState {
        subscribers: match w.subscriber {
            Some((id, rec)) => s.subscribers.insert(id, rec),
            None => s.subscribers,
        },
        tokens: match w.token {
            Some((t, id)) => s.tokens.insert(t, id),
            None => s.tokens,
        },
    }
}

/// A new subscriber awaiting confirmation, together with its token.
pub open spec fn with_subscription(
    s: StoreState,
    id: Uuid,
    email: Seq<char>,
    name: Seq<char>,
    token: Seq<char>,
) -> StoreState {
    StoreState {
        subscribers: s.subscribers.insert(
            id,
            SubscriberRecord { email, name, status: SubscriptionStatus::PendingConfirmation },
        ),
        tokens: s.tokens.insert(token, id),
    }
}

/// The subscriber that `token` belongs to, if any.
pub open spec fn token_owner(s: StoreState, token: Seq<char>) -> Option<Uuid> {
    if s.tokens.contains_key(token) {
        Some(s.tokens[token])
    } else {
        None
    }
}

/// The store after the subscriber `id` is marked confirmed.
pub open spec fn with_confirmed(s: StoreState, id: Uuid) -> StoreState {
    if s.subscribers.contains_key(id) {
        StoreState {
            subscribers: s.subscribers.insert(
                id,
                SubscriberRecord { status: SubscriptionStatus::Confirmed, ..s.subscribers[id] },
            ),
            tokens: s.tokens,
        }
    } else {
        s
    }
}

} // verus!
