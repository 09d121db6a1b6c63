use crate::repository::{token_owner, with_confirmed, StoreState, SubscriptionStatus};
use crate::routes::subscriptions::{
    attempt_run, initial_attempt, lemma_successful_subscription, subscription_of,
    is_subscription_token, SubscribeFlow,
};
use uuid::Uuid;
use vstd::prelude::*;

verus! {

/// The query of a confirmation link.
pub struct Parameters {
    pub subscription_token: String,
}

/// What confirming a subscription asks for next.
pub enum ConfirmAction {
    /// Find the subscriber that owns this token.
    LookupToken(String),
    /// Mark this subscriber confirmed.
    ConfirmSubscriber(Uuid),
    /// Answer with this HTTP status.
    Respond(u16),
}

/// A request without a token is refused; otherwise its owner is looked up.
pub fn confirm_start(params: Option<Parameters>) -> (r: ConfirmAction)
    ensures
        params is None ==> r == ConfirmAction::Respond(400),
        params matches Some(p) ==> (r matches ConfirmAction::LookupToken(t) && t@
            == p.subscription_token@),
{
    match params {
        None => ConfirmAction::Respond(400),
        Some(p) => ConfirmAction::LookupToken(p.subscription_token),
    }
}

/// The decision once the token was looked up: `None` when the lookup failed,
/// else the owner found, if any.
pub open spec fn after_lookup(found: Option<Option<Uuid>>) -> ConfirmAction {
    match found {
        None => ConfirmAction::Respond(500),
        Some(None) => ConfirmAction::Respond(400),
        Some(Some(id)) => ConfirmAction::ConfirmSubscriber(id),
    }
}

/// The decision once the subscriber's status was written, or was not.
pub open spec fn after_update(succeeded: bool) -> ConfirmAction {
    if succeeded {
        ConfirmAction::Respond(200)
    } else {
        ConfirmAction::Respond(500)
    }
}

/// An unknown token is refused with 400; a known one has its subscriber
/// confirmed.
pub fn confirm_after_lookup(found: Result<Option<Uuid>, String>) -> (r: ConfirmAction)
    ensures
        r == after_lookup(
            match found {
                Ok(o) => Some(o),
                Err(_) => None,
            },
        ),
{
    match found {
        Err(_) => ConfirmAction::Respond(500),
        Ok(None) => ConfirmAction::Respond(400),
        Ok(Some(id)) => ConfirmAction::ConfirmSubscriber(id),
    }
}

pub fn confirm_after_update(updated: Result<(), String>) -> (r: ConfirmAction)
    ensures
        r == after_update(updated is Ok),
{
    match updated {
        Ok(()) => ConfirmAction::Respond(200),
        Err(_) => ConfirmAction::Respond(500),
    }
}

/// Confirming with the token of a successful subscription finds its
/// subscriber, confirms it and answers 200; confirming again changes nothing
/// more.
pub proof fn lemma_confirming_the_mailed_token(f: SubscribeFlow, store: StoreState)
    requires
        !store.subscribers.contains_key(f.spec_subscriber_id()),
        is_subscription_token(f.spec_token()),
    ensures
        ({
            let s = attempt_run(f, initial_attempt(), store, seq![true, true, true, true, true]).1;
            let id = f.spec_subscriber_id();
            let confirmed = with_confirmed(s, id);
            &&& after_lookup(Some(token_owner(s, f.spec_token())))
                == ConfirmAction::ConfirmSubscriber(id)
            &&& confirmed.subscribers[id].status == SubscriptionStatus::Confirmed
            &&& confirmed.subscribers.dom() == s.subscribers.dom()
            &&& after_update(true) == ConfirmAction::Respond(200)
            &&& with_confirmed(confirmed, id) == confirmed
        }),
{
    lemma_successful_subscription(f, store);
    let s = subscription_of(f, store);
    let id = f.spec_subscriber_id();
    let confirmed = with_confirmed(s, id);
    assert(confirmed.subscribers.dom() =~= s.subscribers.dom());
    assert(with_confirmed(confirmed, id).subscribers =~= confirmed.subscribers);
}

/// A token that no subscriber owns is refused with 400, and the store is left
/// as it was.
pub proof fn lemma_unknown_token_is_rejected(store: StoreState, token: Seq<char>)
    requires
        !store.tokens.contains_key(token),
    ensures
        after_lookup(Some(token_owner(store, token))) == ConfirmAction::Respond(400),
{
}

} // verus!
