//! Newsletter publisher: validate the content, resolve the recipients —
//! exactly the confirmed subscribers — and summarize the fan-out.
//! Delivery itself is the outbound mail capability's job; one
//! recipient's failure never aborts the rest, and the overall outcome
//! does not depend on per-recipient results.

use vstd::prelude::*;

use crate::auth::{credentials_match, AuthError, CredentialStore};
use crate::store::{
    confirmed_emails, confirmed_of, wf_model, RecordModel, Store, StoreModel,
    SubscriptionStatus,
};

verus! {

/// Newsletter content, complete on all three parts.
pub struct NewsletterContent {
    pub title: String,
    pub text: String,
    pub html: String,
}

impl NewsletterContent {
    /// All parts are non-empty.
    pub open spec fn wf(&self) -> bool {
        self.title@.len() > 0 && self.text@.len() > 0 && self.html@.len() > 0
    }
}

/// Which part of the content was missing or empty.
#[derive(Clone, Copy, Debug, PartialEq, Eq, Structural)]
pub enum ContentError {
    MissingTitle,
    MissingTextBody,
    MissingHtmlBody,
}

/// A field that arrived and is non-empty.
pub open spec fn field_given(o: Option<String>) -> bool {
    o matches Some(s) && s@.len() > 0
}

/// How `validate_content` relates its inputs to its result: success
/// exactly when every part arrived non-empty, carrying the parts
/// through unchanged, and the first missing part named otherwise.
pub open spec fn content_rel(
    title: Option<String>,
    text: Option<String>,
    html: Option<String>,
    r: Result<NewsletterContent, ContentError>,
) -> bool {
    match r {
        Ok(c) => {
            &&& field_given(title)
            &&& field_given(text)
            &&& field_given(html)
            &&& c.title@ == title->Some_0@
            &&& c.text@ == text->Some_0@
            &&& c.html@ == html->Some_0@
            &&& c.wf()
        },
        Err(ContentError::MissingTitle) => !field_given(title),
        Err(ContentError::MissingTextBody) => field_given(title) && !field_given(text),
        Err(ContentError::MissingHtmlBody) => field_given(title) && field_given(text)
            && !field_given(html),
    }
}

/// Check a publish payload for structural completeness: a non-empty
/// title and non-empty text and HTML bodies, in that order.
pub fn validate_content(title: Option<String>, text: Option<String>, html: Option<String>) -> (r:
    Result<NewsletterContent, ContentError>)
    ensures
        content_rel(title, text, html, r),
{
    let t = match title {
        Some(t) => if t.as_str().unicode_len() > 0 {
            t
        } else {
            return Err(ContentError::MissingTitle);
        },
        None => { return Err(ContentError::MissingTitle); },
    };
    let x = match text {
        Some(x) => if x.as_str().unicode_len() > 0 {
            x
        } else {
            return Err(ContentError::MissingTextBody);
        },
        None => { return Err(ContentError::MissingTextBody); },
    };
    let h = match html {
        Some(h) => if h.as_str().unicode_len() > 0 {
            h
        } else {
            return Err(ContentError::MissingHtmlBody);
        },
        None => { return Err(ContentError::MissingHtmlBody); },
    };
    Ok(NewsletterContent { title: t, text: x, html: h })
}

/// The delivery plan: the email addresses of exactly the subscribers
/// that are confirmed right now, in store order.
pub fn plan_delivery(store: &Store) -> (r: Vec<String>)
    ensures
        r@.map_values(|s: String| s@) == confirmed_emails(store@),
{
    let recs = store.list_confirmed();
    let mut out: Vec<String> = Vec::new();
    let n = recs.len();
    let mut i: usize = 0;
    while i < n
        invariant
            i <= n,
            n == recs@.len(),
            recs@.map_values(|rec: crate::store::SubscriptionRecord| rec@) == confirmed_of(
                store@.subs,
            ),
            out@.map_values(|s: String| s@) =~= confirmed_emails(store@).take(i as int),
        decreases n - i,
    {
        let ghost before = out@.map_values(|s: String| s@);
        out.push(recs[i].email.clone());
        proof {
            assert(recs@[i as int]@.email == confirmed_of(store@.subs)[i as int].email);
            assert(out@.map_values(|s: String| s@) =~= before.push(
                confirmed_emails(store@)[i as int],
            ));
            assert(out@.map_values(|s: String| s@) =~= confirmed_emails(store@).take(i + 1));
        }
        i += 1;
    }
    proof {
        assert(confirmed_emails(store@).take(n as int) =~= confirmed_emails(store@));
    }
    out
}

/// How many entries of a delivery log are successes.
pub open spec fn count_true(s: Seq<bool>) -> int
    decreases s.len(),
{
    if s.len() == 0 {
        0
    } else {
        count_true(s.drop_last()) + if s.last() {
            1int
        } else {
            0int
        }
    }
}

/// Aggregate report of one fan-out run.
pub struct PublishReport {
    pub attempted: usize,
    pub succeeded: usize,
    pub failed: usize,
}

/// Summarize per-recipient outcomes: attempts, successes, failures, and
/// nothing lost — failures are isolated and counted, never escalated.
pub fn summarize_delivery(outcomes: &Vec<bool>) -> (r: PublishReport)
    ensures
        r.attempted == outcomes@.len(),
        r.succeeded == count_true(outcomes@),
        r.attempted == r.succeeded + r.failed,
{
    let n = outcomes.len();
    let mut succeeded: usize = 0;
    let mut i: usize = 0;
    while i < n
        invariant
            i <= n,
            n == outcomes@.len(),
            succeeded == count_true(outcomes@.take(i as int)),
            succeeded <= i,
        decreases n - i,
    {
        proof {
            assert(outcomes@.take(i + 1).drop_last() =~= outcomes@.take(i as int));
            assert(outcomes@.take(i + 1).last() == outcomes@[i as int]);
        }
        if outcomes[i] {
            succeeded += 1;
        }
        i += 1;
    }
    proof {
        assert(outcomes@.take(n as int) =~= outcomes@);
    }
    PublishReport { attempted: n, succeeded, failed: n - succeeded }
}

/// How a publish request ended.
pub enum PublishOutcome {
    /// Credentials were missing or wrong: challenge the caller to
    /// authenticate; nothing is delivered.
    AuthRequired,
    /// The payload was structurally incomplete; nothing is delivered.
    BadContent(ContentError),
    /// Deliver `content` to each of `recipients` — the confirmed
    /// subscribers at the time of the call.
    Accepted { operator_id: u128, recipients: Vec<String>, content: NewsletterContent },
}

/// Decide a publish request end to end: authorize, validate the
/// content, and resolve the recipient set. Only a fully authorized,
/// complete request yields any recipients.
pub fn handle_publish(
    creds: &CredentialStore,
    credentials: Option<(&String, &String)>,
    title: Option<String>,
    text: Option<String>,
    html: Option<String>,
    store: &Store,
) -> (r: PublishOutcome)
    requires
        creds.wf(),
    ensures
        match r {
            PublishOutcome::AuthRequired => match credentials {
                None => true,
                Some((u, p)) => !credentials_match(creds@, u@, p@),
            },
            PublishOutcome::BadContent(e) => {
                &&& credentials matches Some((u, p)) && credentials_match(creds@, u@, p@)
                &&& content_rel(title, text, html, Err(e))
            },
            PublishOutcome::Accepted { operator_id, recipients, content } => {
                &&& credentials matches Some((u, p)) && credentials_match(creds@, u@, p@)
                &&& content_rel(title, text, html, Ok(content))
                &&& recipients@.map_values(|s: String| s@) == confirmed_emails(store@)
            },
        },
        r is AuthRequired <==> !(credentials matches Some((u, p)) && credentials_match(
            creds@,
            u@,
            p@,
        )),
{
    let (user, pass) = match credentials {
        Some(pair) => pair,
        None => { return PublishOutcome::AuthRequired; },
    };
    let operator_id = match creds.authorize(user.as_str(), pass.as_str()) {
        Ok(id) => id,
        Err(AuthError::InvalidCredentials) => { return PublishOutcome::AuthRequired; },
    };
    let content = match validate_content(title, text, html) {
        Ok(c) => c,
        Err(e) => { return PublishOutcome::BadContent(e); },
    };
    let recipients = plan_delivery(store);
    PublishOutcome::Accepted { operator_id, recipients, content }
}

/// Law: every entry of the delivery plan is the address of a confirmed
/// row.
pub proof fn lemma_confirmed_of_members(s: Seq<RecordModel>)
    ensures
        forall|k: int|
            0 <= k < confirmed_of(s).len() ==> (#[trigger] confirmed_of(s)[k]).status
                == SubscriptionStatus::Confirmed && exists|i: int|
                0 <= i < s.len() && s[i] == confirmed_of(s)[k],
    decreases s.len(),
{
    if s.len() > 0 {
        lemma_confirmed_of_members(s.drop_last());
        assert forall|k: int| 0 <= k < confirmed_of(s).len() implies (#[trigger] confirmed_of(
            s,
        )[k]).status == SubscriptionStatus::Confirmed && exists|i: int|
            0 <= i < s.len() && s[i] == confirmed_of(s)[k] by {
            let c = confirmed_of(s);
            let cd = confirmed_of(s.drop_last());
            if s.last().status == SubscriptionStatus::Confirmed && k == c.len() - 1 {
                assert(s[s.len() - 1] == c[k]);
            } else {
                assert(c[k] == cd[k]);
                let wi = choose|i: int| 0 <= i < s.drop_last().len() && s.drop_last()[i] == cd[k];
                assert(s[wi] == cd[k]);
            }
        }
    }
}

/// Law: a subscriber still pending receives nothing — its address is
/// not in the delivery plan.
pub proof fn lemma_pending_receives_nothing(m: StoreModel, j: int)
    requires
        wf_model(m),
        0 <= j < m.subs.len(),
        m.subs[j].status == SubscriptionStatus::PendingConfirmation,
    ensures
        !confirmed_emails(m).contains(m.subs[j].email),
{
    if confirmed_emails(m).contains(m.subs[j].email) {
        let k = choose|k: int|
            0 <= k < confirmed_emails(m).len() && confirmed_emails(m)[k] == m.subs[j].email;
        lemma_confirmed_of_members(m.subs);
        assert(confirmed_of(m.subs)[k].status == SubscriptionStatus::Confirmed);
        let wi = choose|i: int| 0 <= i < m.subs.len() && m.subs[i] == confirmed_of(m.subs)[k];
        assert(m.subs[wi].email == m.subs[j].email);
        assert(m.subs[wi].status != m.subs[j].status);
        assert(wi != j);
        assert(false);
    }
}

/// Law: a confirmed subscriber's address is in the delivery plan.
pub proof fn lemma_confirmed_receives(m: StoreModel, j: int)
    requires
        0 <= j < m.subs.len(),
        m.subs[j].status == SubscriptionStatus::Confirmed,
    ensures
        confirmed_emails(m).contains(m.subs[j].email),
{
    lemma_confirmed_of_contains(m.subs, j);
    let k = choose|k: int|
        0 <= k < confirmed_of(m.subs).len() && confirmed_of(m.subs)[k] == m.subs[j];
    assert(confirmed_emails(m)[k] == m.subs[j].email);
}

/// A confirmed row appears in `confirmed_of`.
pub proof fn lemma_confirmed_of_contains(s: Seq<RecordModel>, j: int)
    requires
        0 <= j < s.len(),
        s[j].status == SubscriptionStatus::Confirmed,
    ensures
        confirmed_of(s).contains(s[j]),
    decreases s.len(),
{
    if j == s.len() - 1 {
        assert(confirmed_of(s)[confirmed_of(s).len() - 1] == s[j]);
    } else {
        lemma_confirmed_of_contains(s.drop_last(), j);
        let cd = confirmed_of(s.drop_last());
        let k = choose|k: int| 0 <= k < cd.len() && cd[k] == s.drop_last()[j];
        assert(s.drop_last()[j] == s[j]);
        assert(confirmed_of(s)[k] == s[j]);
    }
}

} // verus!
