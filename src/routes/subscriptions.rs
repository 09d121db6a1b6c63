use crate::domain::subscriber_email::is_valid_email;
use crate::domain::subscriber_name::is_valid_name;
use crate::domain::{NewSubscriber, SubscriberEmail, SubscriberName};
use crate::repository::{
    commit, with_subscription, PendingWrites, StoreState, SubscriberRecord, SubscriptionStatus,
};
use crate::startup::ApplicationBaseUrl;
use rand::Rng;
use uuid::Uuid;
use vstd::prelude::*;

verus! {

/// The fields of a subscription form, as submitted.
pub struct FormData {
    pub name: String,
    pub email: String,
}

pub enum SubscribeError {
    ValidationError(String),
    UnexpectedError(String),
}

impl SubscribeError {
    pub fn status_code(&self) -> (r: u16)
        ensures
            r == (match self {
                SubscribeError::ValidationError(_) => 400u16,
                SubscribeError::UnexpectedError(_) => 500u16,
            }),
    {
        match self {
            SubscribeError::ValidationError(_) => 400,
            SubscribeError::UnexpectedError(_) => 500,
        }
    }
}

/// The causes of an error, one paragraph each, innermost last.
pub open spec fn causes_text(causes: Seq<Seq<char>>) -> Seq<char>
    decreases causes.len(),
{
    if causes.len() == 0 {
        Seq::empty()
    } else {
        causes_text(causes.drop_last()) + "Caused by:\n\t"@ + causes.last() + "\n"@
    }
}

/// An error and the chain of its causes, as written to the logs.
pub fn error_chain_fmt(error: &str, causes: &Vec<String>) -> (r: String)
    ensures
        r@ == error@ + "\n\n"@ + causes_text(causes@.map_values(|c: String| c@)),
{
    let ghost views = causes@.map_values(|c: String| c@);
    let mut out = String::from_str(error);
    out.append("\n\n");
    let mut i: usize = 0;
    while i < causes.len()
        invariant
            i <= causes.len(),
            views == causes@.map_values(|c: String| c@),
            out@ == error@ + "\n\n"@ + causes_text(views.take(i as int)),
        decreases causes.len() - i,
    {
        proof {
            assert(views.take(i + 1).drop_last() == views.take(i as int));
            assert(views.take(i + 1).last() == causes@[i as int]@);
        }
        out.append("Caused by:\n\t");
        out.append(causes[i].as_str());
        out.append("\n");
        i = i + 1;
    }
    proof {
        assert(views.take(causes.len() as int) == views);
    }
    out
}

pub const SUBSCRIPTION_TOKEN_LENGTH: usize = 25;

pub open spec fn is_ascii_alphanumeric(c: char) -> bool {
    ||| 'A' <= c <= 'Z'
    ||| 'a' <= c <= 'z'
    ||| '0' <= c <= '9'
}

/// A confirmation token: 25 ASCII letters and digits.
pub open spec fn is_subscription_token(t: Seq<char>) -> bool {
    &&& t.len() == SUBSCRIPTION_TOKEN_LENGTH
    &&& forall|i: int| 0 <= i < t.len() ==> is_ascii_alphanumeric(#[trigger] t[i])
}

/// Relies on rand's `Alphanumeric` distribution, sampled from `thread_rng`: it
/// yields one of `A-Z`, `a-z`, `0-9`.
#[verifier::external_body]
fn random_alphanumeric() -> (r: char)
    ensures
        is_ascii_alphanumeric(r),
{
    char::from(rand::thread_rng().sample(rand::distributions::Alphanumeric))
}

/// A fresh, unguessable confirmation token.
pub fn generate_subscription_token() -> (r: String)
    ensures
        is_subscription_token(r@),
{
    let mut token = String::new();
    let mut i: usize = 0;
    while i < SUBSCRIPTION_TOKEN_LENGTH
        invariant
            i <= SUBSCRIPTION_TOKEN_LENGTH,
            token@.len() == i,
            forall|j: int| 0 <= j < i ==> is_ascii_alphanumeric(#[trigger] token@[j]),
        decreases SUBSCRIPTION_TOKEN_LENGTH - i,
    {
        let c = random_alphanumeric();
        token.push(c);
        i = i + 1;
    }
    token
}

/// The link that confirms the subscription holding `token`.
pub open spec fn confirmation_link(base_url: Seq<char>, token: Seq<char>) -> Seq<char> {
    base_url + "/subscriptions/confirm?subscription_token="@ + token
}

pub open spec fn confirmation_html(link: Seq<char>) -> Seq<char> {
    "Welcome to our newsletter!<br />Click <a href=\""@ + link
        + "\">here</a> to confirm your subscription."@
}

pub open spec fn confirmation_text(link: Seq<char>) -> Seq<char> {
    "Welcome to our newsletter!\nVisit "@ + link + " to confirm your subscription."@
}

/// The e-mail that asks a new subscriber to confirm.
pub struct ConfirmationEmail {
    pub subject: String,
    pub html_body: String,
    pub text_body: String,
}

/// Both renderings of the confirmation e-mail carry the same link, built from
/// `base_url` and `token`.
pub fn confirmation_email(base_url: &str, token: &str) -> (r: ConfirmationEmail)
    ensures
        r.subject@ == "Welcome!"@,
        r.html_body@ == confirmation_html(confirmation_link(base_url@, token@)),
        r.text_body@ == confirmation_text(confirmation_link(base_url@, token@)),
{
    let mut link = String::from_str(base_url);
    link.append("/subscriptions/confirm?subscription_token=");
    link.append(token);
    let mut html_body = String::from_str("Welcome to our newsletter!<br />Click <a href=\"");
    html_body.append(link.as_str());
    html_body.append("\">here</a> to confirm your subscription.");
    let mut text_body = String::from_str("Welcome to our newsletter!\nVisit ");
    text_body.append(link.as_str());
    text_body.append(" to confirm your subscription.");
    ConfirmationEmail { subject: String::from_str("Welcome!"), html_body, text_body }
}

/// The step that a subscription attempt waits on; `Created` and `Failed` end it.
#[derive(Clone, Copy, PartialEq, Eq, Structural)]
pub enum SubscribeStep {
    BeginTransaction,
    InsertSubscriber,
    StoreToken,
    Commit,
    SendConfirmation,
    Created,
    Failed,
}

impl SubscribeStep {
    pub open spec fn is_final(self) -> bool {
        self is Created || self is Failed
    }

    /// The HTTP status that a finished attempt answers with.
    pub fn status_code(&self) -> (r: Option<u16>)
        ensures
            r == (match self {
                SubscribeStep::Created => Some(201u16),
                SubscribeStep::Failed => Some(500u16),
                _ => None::<u16>,
            }),
    {
        match self {
            SubscribeStep::Created => Some(201),
            SubscribeStep::Failed => Some(500),
            _ => None,
        }
    }
}

/// The step after `s`, given whether `s` was carried out: the steps run in
/// order, the e-mail goes out only after the commit, and any failure ends the
/// attempt.
pub open spec fn next_step(s: SubscribeStep, succeeded: bool) -> SubscribeStep {
    if s.is_final() {
        s
    } else if !succeeded {
        SubscribeStep::Failed
    } else {
        match s {
            SubscribeStep::BeginTransaction => SubscribeStep::InsertSubscriber,
            SubscribeStep::InsertSubscriber => SubscribeStep::StoreToken,
            SubscribeStep::StoreToken => SubscribeStep::Commit,
            SubscribeStep::Commit => SubscribeStep::SendConfirmation,
            _ => SubscribeStep::Created,
        }
    }
}

/// One subscription attempt: a checked subscriber, the id and token minted for
/// it, and the step it waits on.
pub struct SubscribeFlow {
    step: SubscribeStep,
    subscriber_id: Uuid,
    subscriber: NewSubscriber,
    token: String,
    base_url: String,
}

impl SubscribeFlow {
    pub closed spec fn spec_step(&self) -> SubscribeStep {
        self.step
    }

    pub closed spec fn spec_subscriber_id(&self) -> Uuid {
        self.subscriber_id
    }

    pub closed spec fn spec_email(&self) -> Seq<char> {
        self.subscriber.email@
    }

    pub closed spec fn spec_name(&self) -> Seq<char> {
        self.subscriber.name@
    }

    pub closed spec fn spec_token(&self) -> Seq<char> {
        self.token@
    }

    pub closed spec fn spec_base_url(&self) -> Seq<char> {
        self.base_url@
    }

    /// Checks the form and mints the confirmation token; a form that does not
    /// check out is a validation error and nothing is to be written.
    pub fn start(form: FormData, base_url: &ApplicationBaseUrl, subscriber_id: Uuid) -> (r: Result<
        SubscribeFlow,
        SubscribeError,
    >)
        ensures
            r is Ok <==> is_valid_name(form.name@) && is_valid_email(form.email@),
            r matches Err(e) ==> e is ValidationError,
            r matches Ok(f) ==> {
                &&& f.spec_step() == SubscribeStep::BeginTransaction
                &&& f.spec_subscriber_id() == subscriber_id
                &&& f.spec_email() == form.email@
                &&& f.spec_name() == form.name@
                &&& is_subscription_token(f.spec_token())
                &&& f.spec_base_url() == base_url.0@
            },
    {
        let subscriber = match NewSubscriber::parse(form.name.as_str(), form.email) {
            Ok(s) => s,
            Err(msg) => {
                return Err(SubscribeError::ValidationError(msg));
            },
        };
        let token = generate_subscription_token();
        Ok(
            SubscribeFlow {
                step: SubscribeStep::BeginTransaction,
                subscriber_id,
                subscriber,
                token,
                base_url: base_url.to_string(),
            },
        )
    }

    pub fn step(&self) -> (r: SubscribeStep)
        ensures
            r == self.spec_step(),
    {
        self.step
    }

    /// Records whether the current step was carried out.
    pub fn advance(&mut self, succeeded: bool) -> (r: SubscribeStep)
        ensures
            r == final(self).spec_step(),
            final(self).spec_step() == next_step(old(self).spec_step(), succeeded),
            final(self).spec_subscriber_id() == old(self).spec_subscriber_id(),
            final(self).spec_email() == old(self).spec_email(),
            final(self).spec_name() == old(self).spec_name(),
            final(self).spec_token() == old(self).spec_token(),
            final(self).spec_base_url() == old(self).spec_base_url(),
    {
        let next = if self.step == SubscribeStep::Created || self.step == SubscribeStep::Failed {
            self.step
        } else if !succeeded {
            SubscribeStep::Failed
        } else {
            match self.step {
                SubscribeStep::BeginTransaction => SubscribeStep::InsertSubscriber,
                SubscribeStep::InsertSubscriber => SubscribeStep::StoreToken,
                SubscribeStep::StoreToken => SubscribeStep::Commit,
                SubscribeStep::Commit => SubscribeStep::SendConfirmation,
                _ => SubscribeStep::Created,
            }
        };
        self.step = next;
        next
    }

    pub fn subscriber_id(&self) -> (r: Uuid)
        ensures
            r == self.spec_subscriber_id(),
    {
        self.subscriber_id
    }

    pub fn email(&self) -> (r: &SubscriberEmail)
        ensures
            r@ == self.spec_email(),
    {
        &self.subscriber.email
    }

    pub fn name(&self) -> (r: &SubscriberName)
        ensures
            r@ == self.spec_name(),
    {
        &self.subscriber.name
    }

    pub fn token(&self) -> (r: &str)
        ensures
            r@ == self.spec_token(),
    {
        self.token.as_str()
    }

    /// The e-mail to send at `SendConfirmation`.
    pub fn confirmation_email(&self) -> (r: ConfirmationEmail)
        ensures
            r.subject@ == "Welcome!"@,
            r.html_body@ == confirmation_html(
                confirmation_link(self.spec_base_url(), self.spec_token()),
            ),
            r.text_body@ == confirmation_text(
                confirmation_link(self.spec_base_url(), self.spec_token()),
            ),
    {
        confirmation_email(self.base_url.as_str(), self.token.as_str())
    }
}

/// What one attempt has done to the store so far: its step, the writes of its
/// open transaction, and whether they were committed.
pub struct AttemptState {
    pub step: SubscribeStep,
    pub writes: PendingWrites,
    pub committed: bool,
}

pub open spec fn initial_attempt() -> AttemptState {
    AttemptState { step: SubscribeStep::BeginTransaction, writes: PendingWrites::empty(), committed: false }
}

/// The row that the attempt inserts.
pub open spec fn pending_record(f: SubscribeFlow) -> SubscriberRecord {
    SubscriberRecord {
        email: f.spec_email(),
        name: f.spec_name(),
        status: SubscriptionStatus::PendingConfirmation,
    }
}

/// What carrying out (or failing) the current step does: the inserts land in
/// the open transaction, the commit publishes them, and a failure drops the
/// transaction.
pub open spec fn attempt_transition(
    f: SubscribeFlow,
    a: AttemptState,
    store: StoreState,
    succeeded: bool,
) -> (AttemptState, StoreState) {
    let next = next_step(a.step, succeeded);
    if a.step.is_final() {
        (a, store)
    } else if !succeeded {
        (AttemptState { step: next, writes: PendingWrites::empty(), committed: a.committed }, store)
    } else {
        match a.step {
            SubscribeStep::BeginTransaction => (
                AttemptState { step: next, writes: PendingWrites::empty(), committed: a.committed },
                store,
            ),
            SubscribeStep::InsertSubscriber => (
                AttemptState {
                    step: next,
                    writes: PendingWrites {
                        subscriber: Some((f.spec_subscriber_id(), pending_record(f))),
                        ..a.writes
                    },
                    committed: a.committed,
                },
                store,
            ),
            SubscribeStep::StoreToken => (
                AttemptState {
                    step: next,
                    writes: PendingWrites {
                        token: Some((f.spec_token(), f.spec_subscriber_id())),
                        ..a.writes
                    },
                    committed: a.committed,
                },
                store,
            ),
            SubscribeStep::Commit => (
                AttemptState { step: next, writes: PendingWrites::empty(), committed: true },
                commit(store, a.writes),
            ),
            _ => (AttemptState { step: next, ..a }, store),
        }
    }
}

/// Runs the attempt on the given outcomes, one per step, until it ends; gives
/// the final attempt state, the store, and the steps carried out or tried.
pub open spec fn attempt_run(
    f: SubscribeFlow,
    a: AttemptState,
    store: StoreState,
    outcomes: Seq<bool>,
) -> (AttemptState, StoreState, Seq<SubscribeStep>)
    decreases outcomes.len(),
{
    if outcomes.len() == 0 || a.step.is_final() {
        (a, store, Seq::empty())
    } else {
        let (a2, s2) = attempt_transition(f, a, store, outcomes[0]);
        let (a3, s3, tried) = attempt_run(f, a2, s2, outcomes.drop_first());
        (a3, s3, seq![a.step] + tried)
    }
}

pub open spec fn subscription_of(f: SubscribeFlow, store: StoreState) -> StoreState {
    with_subscription(store, f.spec_subscriber_id(), f.spec_email(), f.spec_name(), f.spec_token())
}

/// The writes of an attempt that reached its commit.
spec fn full_writes(f: SubscribeFlow) -> PendingWrites {
    PendingWrites {
        subscriber: Some((f.spec_subscriber_id(), pending_record(f))),
        token: Some((f.spec_token(), f.spec_subscriber_id())),
    }
}

/// What an attempt's open transaction holds at each step.
spec fn writes_inv(f: SubscribeFlow, a: AttemptState) -> bool {
    &&& a.step == SubscribeStep::BeginTransaction ==> !a.committed
    &&& a.step == SubscribeStep::InsertSubscriber ==> !a.committed && a.writes
        == PendingWrites::empty()
    &&& a.step == SubscribeStep::StoreToken ==> !a.committed && a.writes == PendingWrites {
        subscriber: Some((f.spec_subscriber_id(), pending_record(f))),
        token: None,
    }
    &&& a.step == SubscribeStep::Commit ==> !a.committed && a.writes == full_writes(f)
    &&& (a.step == SubscribeStep::SendConfirmation || a.step == SubscribeStep::Created)
        ==> a.committed
}

/// What holds at every point of an attempt that started on `store0`.
spec fn attempt_inv(f: SubscribeFlow, a: AttemptState, store0: StoreState, store: StoreState) -> bool {
    &&& a.committed ==> store == subscription_of(f, store0)
    &&& !a.committed ==> store == store0
    &&& writes_inv(f, a)
}

proof fn lemma_attempt_run_inv(
    f: SubscribeFlow,
    a: AttemptState,
    store0: StoreState,
    store: StoreState,
    outcomes: Seq<bool>,
)
    requires
        attempt_inv(f, a, store0, store),
    ensures
        attempt_inv(f, attempt_run(f, a, store, outcomes).0, store0, attempt_run(f, a, store, outcomes).1),
    decreases outcomes.len(),
{
    if outcomes.len() > 0 && !a.step.is_final() {
        let (a2, s2) = attempt_transition(f, a, store, outcomes[0]);
        if a.step == SubscribeStep::Commit && outcomes[0] {
            assert(commit(store0, full_writes(f)) == subscription_of(f, store0));
        }
        assert(attempt_inv(f, a2, store0, s2));
        lemma_attempt_run_inv(f, a2, store0, s2, outcomes.drop_first());
    }
}

/// A subscription attempt is all or nothing: whatever steps fail, the store
/// ends either as it was or with both the new subscriber and its token.
pub proof fn lemma_subscription_is_atomic(f: SubscribeFlow, store: StoreState, outcomes: Seq<bool>)
    ensures
        ({
            let s = attempt_run(f, initial_attempt(), store, outcomes).1;
            s == store || s == subscription_of(f, store)
        }),
{
    lemma_attempt_run_inv(f, initial_attempt(), store, store, outcomes);
}

/// When every step succeeds, an attempt answers 201 after beginning,
/// inserting, storing the token, committing and sending one e-mail, in that
/// order; the store gains exactly one subscriber, pending confirmation, and
/// the token that the e-mail's link ends with names it.
pub proof fn lemma_successful_subscription(f: SubscribeFlow, store: StoreState)
    requires
        !store.subscribers.contains_key(f.spec_subscriber_id()),
        is_subscription_token(f.spec_token()),
    ensures
        ({
            let (a, s, tried) = attempt_run(
                f,
                initial_attempt(),
                store,
                seq![true, true, true, true, true],
            );
            let id = f.spec_subscriber_id();
            let link = confirmation_link(f.spec_base_url(), f.spec_token());
            &&& a.step == SubscribeStep::Created
            &&& tried == seq![
                SubscribeStep::BeginTransaction,
                SubscribeStep::InsertSubscriber,
                SubscribeStep::StoreToken,
                SubscribeStep::Commit,
                SubscribeStep::SendConfirmation,
            ]
            &&& s == subscription_of(f, store)
            &&& s.subscribers.dom() == store.subscribers.dom().insert(id)
            &&& s.subscribers[id] == pending_record(f)
            &&& s.tokens[f.spec_token()] == id
            &&& link.subrange(link.len() - SUBSCRIPTION_TOKEN_LENGTH, link.len() as int)
                == f.spec_token()
        }),
{
    let outcomes = seq![true, true, true, true, true];
    let a0 = initial_attempt();
    let (a1, s1) = attempt_transition(f, a0, store, true);
    let (a2, s2) = attempt_transition(f, a1, s1, true);
    let (a3, s3) = attempt_transition(f, a2, s2, true);
    let (a4, s4) = attempt_transition(f, a3, s3, true);
    let (a5, s5) = attempt_transition(f, a4, s4, true);
    assert(outcomes.drop_first() == seq![true, true, true, true]);
    assert(outcomes.drop_first().drop_first() == seq![true, true, true]);
    assert(outcomes.drop_first().drop_first().drop_first() == seq![true, true]);
    assert(outcomes.drop_first().drop_first().drop_first().drop_first() == seq![true]);
    assert(outcomes.drop_first().drop_first().drop_first().drop_first().drop_first() == Seq::<
        bool,
    >::empty());
    let o1 = outcomes.drop_first();
    let o2 = o1.drop_first();
    let o3 = o2.drop_first();
    let o4 = o3.drop_first();
    let o5 = o4.drop_first();
    assert(a5.step == SubscribeStep::Created);
    assert(attempt_run(f, a5, s5, o5) == (a5, s5, Seq::<SubscribeStep>::empty()));
    assert(attempt_run(f, a4, s4, o4) == (a5, s5, seq![a4.step] + Seq::<SubscribeStep>::empty()));
    assert(attempt_run(f, a3, s3, o3) == (a5, s5, seq![a3.step] + (seq![a4.step] + Seq::<SubscribeStep>::empty())));
    assert(attempt_run(f, a2, s2, o2).2 =~= seq![a2.step, a3.step, a4.step]);
    assert(attempt_run(f, a1, s1, o1).2 =~= seq![a1.step, a2.step, a3.step, a4.step]);
    assert(attempt_run(f, a0, store, outcomes).2 =~= seq![a0.step, a1.step, a2.step, a3.step, a4.step]);
    assert(attempt_run(f, a0, store, outcomes).1 == s5);
    assert(commit(store, full_writes(f)) == subscription_of(f, store));
    let id = f.spec_subscriber_id();
    let s = subscription_of(f, store);
    assert(s.subscribers.dom() =~= store.subscribers.dom().insert(id));
    let link = confirmation_link(f.spec_base_url(), f.spec_token());
    assert(link.subrange(link.len() - SUBSCRIPTION_TOKEN_LENGTH, link.len() as int)
        =~= f.spec_token());
}

/// The store with the attempt's subscriber and token, if it committed.
pub open spec fn subscription_if(committed: bool, f: SubscribeFlow, store: StoreState) -> StoreState {
    if committed {
        subscription_of(f, store)
    } else {
        store
    }
}

/// Two attempts run side by side on one store: each entry of `schedule` says
/// which attempt moves (`true` for `f`) and whether its step succeeded.
pub open spec fn interleaved_run(
    f: SubscribeFlow,
    g: SubscribeFlow,
    a: AttemptState,
    b: AttemptState,
    store: StoreState,
    schedule: Seq<(bool, bool)>,
) -> (AttemptState, AttemptState, StoreState)
    decreases schedule.len(),
{
    if schedule.len() == 0 {
        (a, b, store)
    } else {
        let (moves_f, ok) = schedule[0];
        if moves_f {
            let (a2, s2) = attempt_transition(f, a, store, ok);
            interleaved_run(f, g, a2, b, s2, schedule.drop_first())
        } else {
            let (b2, s2) = attempt_transition(g, b, store, ok);
            interleaved_run(f, g, a, b2, s2, schedule.drop_first())
        }
    }
}

proof fn lemma_writes_inv_step(f: SubscribeFlow, a: AttemptState, store: StoreState, ok: bool)
    requires
        writes_inv(f, a),
    ensures
        writes_inv(f, attempt_transition(f, a, store, ok).0),
        attempt_transition(f, a, store, ok).0.committed == a.committed || (a.step
            == SubscribeStep::Commit && ok),
        attempt_transition(f, a, store, ok).1 == if a.step == SubscribeStep::Commit && ok {
            subscription_of(f, store)
        } else {
            store
        },
        attempt_transition(f, a, store, ok).0.committed ==> a.committed || (a.step
            == SubscribeStep::Commit && ok),
{
    if a.step == SubscribeStep::Commit && ok {
        assert(commit(store, full_writes(f)) == subscription_of(f, store));
    }
}

proof fn lemma_subscriptions_commute(f: SubscribeFlow, g: SubscribeFlow, store: StoreState)
    requires
        f.spec_subscriber_id() != g.spec_subscriber_id(),
        f.spec_token() != g.spec_token(),
    ensures
        subscription_of(f, subscription_of(g, store)) == subscription_of(g, subscription_of(f, store)),
{
    let fg = subscription_of(f, subscription_of(g, store));
    let gf = subscription_of(g, subscription_of(f, store));
    assert(fg.subscribers =~= gf.subscribers);
    assert(fg.tokens =~= gf.tokens);
}

proof fn lemma_interleaved_run_inv(
    f: SubscribeFlow,
    g: SubscribeFlow,
    a: AttemptState,
    b: AttemptState,
    store0: StoreState,
    store: StoreState,
    schedule: Seq<(bool, bool)>,
)
    requires
        f.spec_subscriber_id() != g.spec_subscriber_id(),
        f.spec_token() != g.spec_token(),
        writes_inv(f, a),
        writes_inv(g, b),
        store == subscription_if(b.committed, g, subscription_if(a.committed, f, store0)),
    ensures
        ({
            let (a2, b2, s2) = interleaved_run(f, g, a, b, store, schedule);
            &&& writes_inv(f, a2)
            &&& writes_inv(g, b2)
            &&& s2 == subscription_if(b2.committed, g, subscription_if(a2.committed, f, store0))
        }),
    decreases schedule.len(),
{
    if schedule.len() > 0 {
        let (moves_f, ok) = schedule[0];
        if moves_f {
            let (a2, s2) = attempt_transition(f, a, store, ok);
            lemma_writes_inv_step(f, a, store, ok);
            if a.step == SubscribeStep::Commit && ok {
                if b.committed {
                    lemma_subscriptions_commute(f, g, store0);
                }
            }
            lemma_interleaved_run_inv(f, g, a2, b, store0, s2, schedule.drop_first());
        } else {
            let (b2, s2) = attempt_transition(g, b, store, ok);
            lemma_writes_inv_step(g, b, store, ok);
            lemma_interleaved_run_inv(f, g, a, b2, store0, s2, schedule.drop_first());
        }
    }
}

/// Two attempts with different ids and tokens, their steps interleaved in any
/// order and any of them failing, leave the store with each attempt's
/// subscriber and token together or with neither: the commit of one never
/// carries a write of the other, nor only half of its own.
pub proof fn lemma_interleaved_subscriptions_are_atomic(
    f: SubscribeFlow,
    g: SubscribeFlow,
    store: StoreState,
    schedule: Seq<(bool, bool)>,
)
    requires
        f.spec_subscriber_id() != g.spec_subscriber_id(),
        f.spec_token() != g.spec_token(),
    ensures
        ({
            let (a, b, s) = interleaved_run(f, g, initial_attempt(), initial_attempt(), store, schedule);
            s == subscription_if(b.committed, g, subscription_if(a.committed, f, store))
        }),
{
    lemma_interleaved_run_inv(f, g, initial_attempt(), initial_attempt(), store, store, schedule);
}

} // verus!
