use crate::authentication::{
    auth_verdict, basic_authentication, basic_credentials, check_outcome, credentials_verdict,
    expected_credentials, header_bytes, AuthError, AuthVerdict, Credentials,
};
use crate::domain::subscriber_email::is_valid_email;
use crate::domain::SubscriberEmail;
use uuid::Uuid;
use vstd::prelude::*;

verus! {

pub struct Content {
    pub html: String,
    pub text: String,
}

/// A newsletter issue: its title and its HTML and plain-text renderings.
pub struct BodyData {
    pub title: String,
    pub content: Content,
}

pub enum PublishError {
    AuthError(String),
    ValidationError(String),
    UnexpectedError(String),
}

pub open spec fn error_status(e: PublishError) -> u16 {
    match e {
        PublishError::AuthError(_) => 401,
        PublishError::ValidationError(_) => 400,
        PublishError::UnexpectedError(_) => 500,
    }
}

impl PublishError {
    pub fn status_code(&self) -> (r: u16)
        ensures
            r == error_status(*self),
    {
        match self {
            PublishError::AuthError(_) => 401,
            PublishError::ValidationError(_) => 400,
            PublishError::UnexpectedError(_) => 500,
        }
    }

    /// The challenge that goes with a refusal, for the `WWW-Authenticate`
    /// header.
    pub fn www_authenticate(&self) -> (r: Option<&'static str>)
        ensures
            self is AuthError ==> (r matches Some(v) && v@ == "Basic realm=\"publish\""@),
            !(self is AuthError) ==> r is None,
    {
        match self {
            PublishError::AuthError(_) => Some("Basic realm=\"publish\""),
            _ => None,
        }
    }
}

pub struct ConfirmedSubscriber {
    pub email: SubscriberEmail,
}

pub open spec fn row_views(rows: Seq<String>) -> Seq<Seq<char>> {
    rows.map_values(|r: String| r@)
}

/// The stored addresses that are valid, in their order.
pub open spec fn valid_recipients(rows: Seq<Seq<char>>) -> Seq<Seq<char>>
    decreases rows.len(),
{
    if rows.len() == 0 {
        Seq::empty()
    } else {
        let rest = valid_recipients(rows.drop_last());
        if is_valid_email(rows.last()) {
            rest.push(rows.last())
        } else {
            rest
        }
    }
}

/// Checks each stored address of a confirmed subscriber; a malformed one is
/// reported on its own and does not stop the others.
pub fn confirmed_subscribers(rows: Vec<String>) -> (r: Vec<Result<ConfirmedSubscriber, String>>)
    ensures
        r.len() == rows.len(),
        forall|i: int|
            0 <= i < r.len() ==> (#[trigger] r[i] is Ok <==> is_valid_email(rows[i]@)),
        forall|i: int| 0 <= i < r.len() ==> (#[trigger] r[i] matches Ok(c) ==> c.email@ == rows[i]@),
{
    let mut out: Vec<Result<ConfirmedSubscriber, String>> = Vec::new();
    let n = rows.len();
    let mut i: usize = 0;
    while i < n
        invariant
            n == rows.len(),
            i <= n,
            out.len() == i,
            forall|j: int| 0 <= j < i ==> (#[trigger] out[j] is Ok <==> is_valid_email(rows[j]@)),
            forall|j: int| 0 <= j < i ==> (#[trigger] out[j] matches Ok(c) ==> c.email@ == rows[j]@),
        decreases n - i,
    {
        let row = rows[i].clone();
        match SubscriberEmail::parse(row) {
            Ok(email) => out.push(Ok(ConfirmedSubscriber { email })),
            Err(e) => out.push(Err(e)),
        }
        i = i + 1;
    }
    out
}

/// The addresses of the subscribers that checked out, in their order.
pub open spec fn ok_addresses(subs: Seq<Result<ConfirmedSubscriber, String>>) -> Seq<Seq<char>>
    decreases subs.len(),
{
    if subs.len() == 0 {
        Seq::empty()
    } else {
        let rest = ok_addresses(subs.drop_last());
        match subs.last() {
            Ok(c) => rest.push(c.email@),
            Err(_) => rest,
        }
    }
}

/// The step that publishing an issue waits on; `Published` and `Failed` end it.
#[derive(Clone, Copy, PartialEq, Eq, Structural)]
pub enum PublishStep {
    FetchStoredCredentials,
    VerifyPassword,
    FetchConfirmedSubscribers,
    SendIssue,
    Published,
    Failed,
}

/// How an authentication attempt ends for the publisher: `None` goes on to
/// the subscribers, `Some(status)` answers at once. Unknown users and wrong
/// passwords get the same answer.
pub open spec fn status_after_check(user_id: Option<Uuid>, check: Option<bool>, has_body: bool) -> Option<
    u16,
> {
    match auth_verdict(user_id, check) {
        AuthVerdict::Failed => Some(500),
        AuthVerdict::Rejected => Some(401),
        AuthVerdict::Authenticated(_) => if has_body {
            None
        } else {
            Some(400)
        },
    }
}

/// The fan-out after one send was tried: a failure ends it, and it ends with
/// success once every recipient got the issue.
pub open spec fn send_transition(step: PublishStep, next: nat, n: nat, ok: bool) -> (PublishStep, nat) {
    if step != PublishStep::SendIssue {
        (step, next)
    } else if !ok {
        (PublishStep::Failed, next)
    } else if next + 1 >= n {
        (PublishStep::Published, next + 1)
    } else {
        (PublishStep::SendIssue, next + 1)
    }
}

/// Runs the fan-out on one outcome per send; gives the final step, the next
/// recipient, and the recipients (by position) that a send was tried for.
pub open spec fn fan_out(step: PublishStep, next: nat, n: nat, outcomes: Seq<bool>) -> (
    PublishStep,
    nat,
    Seq<nat>,
)
    decreases outcomes.len(),
{
    if outcomes.len() == 0 || step != PublishStep::SendIssue {
        (step, next, Seq::empty())
    } else {
        let (s2, n2) = send_transition(step, next, n, outcomes[0]);
        let (s3, n3, tried) = fan_out(s2, n2, n, outcomes.drop_first());
        (s3, n3, seq![next] + tried)
    }
}

/// Publishing one issue: the credentials given, the issue if the body was
/// well formed, and how far the work has come.
pub struct PublishFlow {
    step: PublishStep,
    credentials: Credentials,
    body: Option<BodyData>,
    decoy_hash: String,
    user_id: Option<Uuid>,
    expected_hash: String,
    recipients: Vec<SubscriberEmail>,
    next: usize,
}

impl PublishFlow {
    pub closed spec fn spec_step(&self) -> PublishStep {
        self.step
    }

    pub closed spec fn spec_username(&self) -> Seq<char> {
        self.credentials.username@
    }

    pub closed spec fn spec_password(&self) -> Seq<char> {
        self.credentials.password@
    }

    pub closed spec fn spec_has_body(&self) -> bool {
        self.body is Some
    }

    pub closed spec fn spec_body(&self) -> Option<BodyData> {
        self.body
    }

    pub closed spec fn spec_decoy_hash(&self) -> Seq<char> {
        self.decoy_hash@
    }

    pub closed spec fn spec_user_id(&self) -> Option<Uuid> {
        self.user_id
    }

    pub closed spec fn spec_expected_hash(&self) -> Seq<char> {
        self.expected_hash@
    }

    pub closed spec fn spec_recipients(&self) -> Seq<Seq<char>> {
        self.recipients@.map_values(|e: SubscriberEmail| e@)
    }

    pub closed spec fn spec_next(&self) -> nat {
        self.next as nat
    }

    pub closed spec fn wf(&self) -> bool {
        &&& self.step == PublishStep::FetchConfirmedSubscribers ==> self.body is Some
        &&& self.step == PublishStep::SendIssue ==> self.next < self.recipients.len()
            && self.body is Some
    }

    /// Reads the Basic credentials; without usable ones the request is refused
    /// with 401, whatever the body.
    pub fn start(authorization: Option<&[u8]>, body: Option<BodyData>, decoy_hash: String) -> (r:
        Result<PublishFlow, PublishError>)
        ensures
            r is Ok <==> basic_credentials(header_bytes(authorization)) is Some,
            r matches Err(e) ==> e is AuthError,
            r matches Ok(f) ==> {
                &&& f.wf()
                &&& f.spec_step() == PublishStep::FetchStoredCredentials
                &&& basic_credentials(header_bytes(authorization)) == Some(
                    (f.spec_username(), f.spec_password()),
                )
                &&& f.spec_has_body() == body is Some
                &&& f.spec_body() == body
                &&& f.spec_decoy_hash() == decoy_hash@
            },
    {
        match basic_authentication(authorization) {
            Err(msg) => Err(PublishError::AuthError(msg)),
            Ok(credentials) => Ok(
                PublishFlow {
                    step: PublishStep::FetchStoredCredentials,
                    credentials,
                    body,
                    decoy_hash,
                    user_id: None,
                    expected_hash: String::new(),
                    recipients: Vec::new(),
                    next: 0,
                },
            ),
        }
    }

    pub fn step(&self) -> (r: PublishStep)
        ensures
            r == self.spec_step(),
    {
        self.step
    }

    /// The username whose stored credentials are to be fetched.
    pub fn username(&self) -> (r: &str)
        ensures
            r@ == self.spec_username(),
    {
        self.credentials.username.as_str()
    }

    /// Takes the stored user id and hash, if the user exists. The password is
    /// checked next in either case: against the decoy for an unknown user.
    pub fn on_stored_credentials(
        &mut self,
        stored: Result<Option<(Uuid, String)>, String>,
    ) -> (r: Result<(), PublishError>)
        requires
            old(self).spec_step() == PublishStep::FetchStoredCredentials,
        ensures
            final(self).wf(),
            final(self).spec_username() == old(self).spec_username(),
            final(self).spec_password() == old(self).spec_password(),
            final(self).spec_has_body() == old(self).spec_has_body(),
            final(self).spec_body() == old(self).spec_body(),
            stored is Err ==> (r matches Err(e) && e is UnexpectedError) && final(self).spec_step()
                == PublishStep::Failed,
            stored is Ok ==> r is Ok && final(self).spec_step() == PublishStep::VerifyPassword,
            stored matches Ok(Some((id, h))) ==> final(self).spec_user_id() == Some(id)
                && final(self).spec_expected_hash() == h@,
            stored matches Ok(None) ==> final(self).spec_user_id() is None
                && final(self).spec_expected_hash() == old(self).spec_decoy_hash(),
    {
        match stored {
            Err(msg) => {
                self.step = PublishStep::Failed;
                Err(PublishError::UnexpectedError(msg))
            },
            Ok(found) => {
                let (user_id, expected_hash) = expected_credentials(found, self.decoy_hash.as_str());
                self.user_id = user_id;
                self.expected_hash = expected_hash;
                self.step = PublishStep::VerifyPassword;
                Ok(())
            },
        }
    }

    /// The hash and the candidate password that `verify_password` is to be run on.
    pub fn password_check(&self) -> (r: (&str, &str))
        ensures
            r.0@ == self.spec_expected_hash(),
            r.1@ == self.spec_password(),
    {
        (self.expected_hash.as_str(), self.credentials.password.as_str())
    }

    /// Takes the result of the password check, or the reason it could not run.
    pub fn on_password_checked(&mut self, check: Result<Result<(), AuthError>, String>) -> (r:
        Result<(), PublishError>)
        requires
            old(self).spec_step() == PublishStep::VerifyPassword,
        ensures
            final(self).wf(),
            final(self).spec_has_body() == old(self).spec_has_body(),
            final(self).spec_body() == old(self).spec_body(),
            ({
                match status_after_check(
                    old(self).spec_user_id(),
                    check_outcome(check),
                    old(self).spec_has_body(),
                ) {
                    None => r is Ok && final(self).spec_step()
                        == PublishStep::FetchConfirmedSubscribers,
                    Some(status) => (r matches Err(e) && error_status(e) == status)
                        && final(self).spec_step() == PublishStep::Failed,
                }
            }),
    {
        match credentials_verdict(self.user_id, check) {
            Err(AuthError::UnexpectedError(msg)) => {
                self.step = PublishStep::Failed;
                Err(PublishError::UnexpectedError(msg))
            },
            Err(AuthError::InvalidCredentials(msg)) => {
                self.step = PublishStep::Failed;
                Err(PublishError::AuthError(msg))
            },
            Ok(_) => {
                if self.body.is_none() {
                    self.step = PublishStep::Failed;
                    Err(
                        PublishError::ValidationError(
                            String::from_str("The body needs a title, an HTML and a text content"),
                        ),
                    )
                } else {
                    self.step = PublishStep::FetchConfirmedSubscribers;
                    Ok(())
                }
            },
        }
    }

    /// Takes the confirmed subscribers, as `confirmed_subscribers` checked
    /// them; gives back the reasons the malformed ones are skipped.
    pub fn on_confirmed_subscribers(
        &mut self,
        subscribers: Result<Vec<Result<ConfirmedSubscriber, String>>, String>,
    ) -> (r: Result<Vec<String>, PublishError>)
        requires
            old(self).wf(),
            old(self).spec_step() == PublishStep::FetchConfirmedSubscribers,
        ensures
            final(self).wf(),
            final(self).spec_body() == old(self).spec_body(),
            subscribers is Err ==> (r matches Err(e) && e is UnexpectedError)
                && final(self).spec_step() == PublishStep::Failed,
            subscribers matches Ok(subs) ==> {
                &&& r matches Ok(skipped) && skipped.len() + final(self).spec_recipients().len()
                    == subs.len()
                &&& final(self).spec_recipients() == ok_addresses(subs@)
                &&& final(self).spec_next() == 0
                &&& final(self).spec_step() == if ok_addresses(subs@).len() == 0 {
                    PublishStep::Published
                } else {
                    PublishStep::SendIssue
                }
            },
    {
        let subs = match subscribers {
            Err(msg) => {
                self.step = PublishStep::Failed;
                return Err(PublishError::UnexpectedError(msg));
            },
            Ok(subs) => subs,
        };
        let ghost all = subs@;
        let mut recipients: Vec<SubscriberEmail> = Vec::new();
        let mut skipped: Vec<String> = Vec::new();
        for item in it: subs.into_iter()
            invariant
                it.seq() == all,
                recipients@.map_values(|e: SubscriberEmail| e@) == ok_addresses(
                    all.take(it.index() as int),
                ),
                skipped.len() + recipients.len() == it.index(),
        {
            proof {
                assert(all.take(it.index() + 1).drop_last() == all.take(it.index() as int));
                assert(all.take(it.index() + 1).last() == item);
            }
            match item {
                Ok(c) => {
                    recipients.push(c.email);
                    proof {
                        assert(recipients@.map_values(|e: SubscriberEmail| e@) =~= ok_addresses(
                            all.take(it.index() + 1),
                        ));
                    }
                },
                Err(msg) => {
                    skipped.push(msg);
                },
            }
        }
        proof {
            assert(all.take(all.len() as int) == all);
        }
        self.next = 0;
        self.step = if recipients.len() == 0 {
            PublishStep::Published
        } else {
            PublishStep::SendIssue
        };
        self.recipients = recipients;
        Ok(skipped)
    }

    /// Whom the issue goes to next.
    pub fn current_recipient(&self) -> (r: &SubscriberEmail)
        requires
            self.wf(),
            self.spec_step() == PublishStep::SendIssue,
        ensures
            r@ == self.spec_recipients()[self.spec_next() as int],
    {
        &self.recipients[self.next]
    }

    /// The issue to send.
    pub fn issue(&self) -> (r: &BodyData)
        requires
            self.wf(),
            self.spec_step() == PublishStep::SendIssue,
        ensures
            self.spec_body() == Some(*r),
    {
        self.body.as_ref().unwrap()
    }

    /// Takes the outcome of one send; the first failure ends the fan-out.
    pub fn on_sent(&mut self, sent: Result<(), String>) -> (r: Result<(), PublishError>)
        requires
            old(self).wf(),
            old(self).spec_step() == PublishStep::SendIssue,
        ensures
            final(self).wf(),
            final(self).spec_body() == old(self).spec_body(),
            final(self).spec_recipients() == old(self).spec_recipients(),
            (final(self).spec_step(), final(self).spec_next()) == send_transition(
                old(self).spec_step(),
                old(self).spec_next(),
                old(self).spec_recipients().len(),
                sent is Ok,
            ),
            sent is Ok <==> r is Ok,
            r matches Err(e) ==> e is UnexpectedError,
    {
        match sent {
            Err(msg) => {
                self.step = PublishStep::Failed;
                Err(PublishError::UnexpectedError(msg))
            },
            Ok(()) => {
                self.next = self.next + 1;
                if self.next >= self.recipients.len() {
                    self.step = PublishStep::Published;
                }
                Ok(())
            },
        }
    }
}

/// An unknown username and a known one with a wrong password get the same
/// answer: 401 with the Basic challenge, whatever the decoy check gave.
pub proof fn lemma_rejections_look_alike(id: Uuid, decoy_check: bool, has_body: bool)
    ensures
        status_after_check(None, Some(decoy_check), has_body) == Some(401u16),
        status_after_check(Some(id), Some(false), has_body) == Some(401u16),
        forall|e: PublishError| error_status(e) == 401 <==> e is AuthError,
{
}

/// An authenticated publisher whose body lacks the title or a rendering gets 400.
pub proof fn lemma_malformed_body_is_rejected(id: Uuid)
    ensures
        status_after_check(Some(id), Some(true), false) == Some(400u16),
        status_after_check(Some(id), Some(true), true) is None,
{
}

proof fn lemma_fan_out_from(k: nat, n: nat)
    requires
        k < n,
    ensures
        fan_out(PublishStep::SendIssue, k, n, Seq::new((n - k) as nat, |i: int| true)) == (
            PublishStep::Published,
            n,
            Seq::new((n - k) as nat, |i: int| (k + i) as nat),
        ),
    decreases n - k,
{
    let outcomes = Seq::new((n - k) as nat, |i: int| true);
    let (s2, n2) = send_transition(PublishStep::SendIssue, k, n, true);
    assert(outcomes[0]);
    if k + 1 < n {
        assert(outcomes.drop_first() =~= Seq::new((n - (k + 1)) as nat, |i: int| true));
        lemma_fan_out_from(k + 1, n);
        assert(s2 == PublishStep::SendIssue && n2 == k + 1);
        assert(seq![k] + Seq::new((n - (k + 1)) as nat, |i: int| (k + 1 + i) as nat) =~= Seq::new(
            (n - k) as nat,
            |i: int| (k + i) as nat,
        ));
    } else {
        assert(outcomes.drop_first() =~= Seq::<bool>::empty());
        assert(s2 == PublishStep::Published && n2 == k + 1);
        assert(fan_out(s2, n2, n, outcomes.drop_first()) == (s2, n2, Seq::<nat>::empty()));
        assert(seq![k] + Seq::<nat>::empty() =~= Seq::new((n - k) as nat, |i: int| (k + i) as nat));
    }
}

/// With `n` recipients and every send succeeding, the issue goes out exactly
/// once to each recipient, in order, and publishing succeeds (200). With no
/// recipient nothing is sent.
pub proof fn lemma_one_send_per_recipient(n: nat)
    ensures
        n > 0 ==> fan_out(PublishStep::SendIssue, 0, n, Seq::new(n, |i: int| true)) == (
            PublishStep::Published,
            n,
            Seq::new(n, |i: int| i as nat),
        ),
        fan_out(PublishStep::Published, 0, 0, Seq::<bool>::empty()).2.len() == 0,
{
    if n > 0 {
        lemma_fan_out_from(0, n);
        assert(Seq::new(n, |i: int| (0 + i) as nat) =~= Seq::new(n, |i: int| i as nat));
    }
}

/// The first failed send ends the fan-out: no recipient after it is tried.
pub proof fn lemma_first_failure_stops_fan_out(next: nat, n: nat, rest: Seq<bool>)
    ensures
        fan_out(PublishStep::SendIssue, next, n, seq![false] + rest) == (
            PublishStep::Failed,
            next,
            seq![next],
        ),
{
    let outcomes = seq![false] + rest;
    assert(outcomes[0] == false);
    assert(fan_out(PublishStep::Failed, next, n, outcomes.drop_first()) == (
        PublishStep::Failed,
        next,
        Seq::<nat>::empty(),
    ));
    assert(seq![next] + Seq::<nat>::empty() =~= seq![next]);
}

/// Checking the stored rows one by one keeps exactly the valid addresses, in
/// their order.
pub proof fn lemma_checked_rows_keep_valid_addresses(
    subs: Seq<Result<ConfirmedSubscriber, String>>,
    rows: Seq<String>,
)
    requires
        subs.len() == rows.len(),
        forall|i: int| 0 <= i < subs.len() ==> (#[trigger] subs[i] is Ok <==> is_valid_email(rows[i]@)),
        forall|i: int| 0 <= i < subs.len() ==> (#[trigger] subs[i] matches Ok(c) ==> c.email@ == rows[i]@),
    ensures
        ok_addresses(subs) == valid_recipients(row_views(rows)),
    decreases subs.len(),
{
    if subs.len() > 0 {
        let (s1, r1) = (subs.drop_last(), rows.drop_last());
        assert forall|i: int| 0 <= i < s1.len() implies (#[trigger] s1[i] is Ok <==> is_valid_email(
            r1[i]@,
        )) by {
            assert(s1[i] == subs[i]);
        }
        assert forall|i: int| 0 <= i < s1.len() implies (#[trigger] s1[i] matches Ok(c) ==> c.email@
            == r1[i]@) by {
            assert(s1[i] == subs[i]);
        }
        lemma_checked_rows_keep_valid_addresses(s1, r1);
        assert(row_views(rows).drop_last() =~= row_views(r1));
        assert(row_views(rows).last() == rows.last()@);
        assert(subs.last() == subs[subs.len() - 1]);
    }
}

/// When every stored address is valid, all of them are kept.
pub proof fn lemma_valid_rows_are_all_kept(rows: Seq<Seq<char>>)
    requires
        forall|i: int| 0 <= i < rows.len() ==> is_valid_email(#[trigger] rows[i]),
    ensures
        valid_recipients(rows) == rows,
    decreases rows.len(),
{
    if rows.len() > 0 {
        let r1 = rows.drop_last();
        assert forall|i: int| 0 <= i < r1.len() implies is_valid_email(#[trigger] r1[i]) by {
            assert(r1[i] == rows[i]);
        }
        lemma_valid_rows_are_all_kept(r1);
        assert(rows.last() == rows[rows.len() - 1]);
        assert(r1.push(rows.last()) =~= rows);
    }
}

/// With `n` confirmed subscribers whose stored addresses are valid, the issue
/// is sent exactly `n` times, once to each of them in order, and publishing
/// answers 200; with none, nothing is sent.
pub proof fn lemma_one_send_per_confirmed_subscriber(
    subs: Seq<Result<ConfirmedSubscriber, String>>,
    rows: Seq<String>,
)
    requires
        subs.len() == rows.len(),
        forall|i: int| 0 <= i < subs.len() ==> (#[trigger] subs[i] is Ok <==> is_valid_email(rows[i]@)),
        forall|i: int| 0 <= i < subs.len() ==> (#[trigger] subs[i] matches Ok(c) ==> c.email@ == rows[i]@),
        forall|i: int| 0 <= i < rows.len() ==> is_valid_email(#[trigger] rows[i]@),
    ensures
        ok_addresses(subs) == row_views(rows),
        rows.len() > 0 ==> fan_out(
            PublishStep::SendIssue,
            0,
            rows.len(),
            Seq::new(rows.len(), |i: int| true),
        ) == (PublishStep::Published, rows.len(), Seq::new(rows.len(), |i: int| i as nat)),
{
    lemma_checked_rows_keep_valid_addresses(subs, rows);
    let views = row_views(rows);
    assert forall|i: int| 0 <= i < views.len() implies is_valid_email(#[trigger] views[i]) by {
        assert(views[i] == rows[i]@);
    }
    lemma_valid_rows_are_all_kept(views);
    lemma_one_send_per_recipient(rows.len());
}

} // verus!
