//! Confirmation workflow: a raw submission is validated, persisted as a
//! pending row together with a fresh token (atomically), and answered
//! with a confirmation email carrying the token; presenting the token
//! later marks the subscriber confirmed, idempotently.

use vstd::prelude::*;

use crate::clock::now_timestamp;
use crate::domain::{
    is_valid_email, is_valid_name, parse_new_subscriber, ValidationError,
};
use crate::issuer::{generate_token, is_lower_hex_char, new_subscriber_id};
use crate::store::{
    has_email, has_id, has_token, insert_model, lemma_insert_preserves_wf,
    lemma_insert_resolves, lemma_mark_confirms, lemma_mark_preserves_wf, mark_model,
    resolve_model, status_of, wf_model, InsertError, Store, StoreError, StoreModel,
    SubscriptionStatus,
};

verus! {

/// The confirmation URL for a token, relative to the application's base
/// URL.
pub open spec fn confirmation_link(base: Seq<char>, token: Seq<char>) -> Seq<char> {
    base + "/subscriptions/confirm?subscription_token="@ + token
}

/// The HTML rendering of the confirmation message around a link.
pub open spec fn html_body_of(link: Seq<char>) -> Seq<char> {
    "Welcome to our newsletter!<br />Click <a href=\""@ + link
        + "\">here</a> to confirm your subscription."@
}

/// The plain-text rendering of the confirmation message around a link.
pub open spec fn text_body_of(link: Seq<char>) -> Seq<char> {
    "Welcome to our newsletter!\nVisit "@ + link + " to confirm your subscription."@
}

/// One outbound confirmation email, ready for the mail transport.
pub struct ConfirmationEmail {
    pub to: String,
    pub subject: String,
    pub html_body: String,
    pub text_body: String,
}

/// Both bodies of the email render the same confirmation link for
/// `token`, and the email is addressed to the subscriber.
pub open spec fn confirmation_email_for(
    e: ConfirmationEmail,
    base: Seq<char>,
    to: Seq<char>,
    token: Seq<char>,
) -> bool {
    &&& e.to@ == to
    &&& e.subject@ == "Welcome!"@
    &&& e.html_body@ == html_body_of(confirmation_link(base, token))
    &&& e.text_body@ == text_body_of(confirmation_link(base, token))
}

/// Build the confirmation email for a freshly issued token.
pub fn build_confirmation_email(base_url: &str, to: String, token: &str) -> (r: ConfirmationEmail)
    ensures
        confirmation_email_for(r, base_url@, to@, token@),
{
    let mut link = String::from_str(base_url);
    link.append("/subscriptions/confirm?subscription_token=");
    link.append(token);
    let mut html = String::from_str("Welcome to our newsletter!<br />Click <a href=\"");
    html.append(link.as_str());
    html.append("\">here</a> to confirm your subscription.");
    let mut text = String::from_str("Welcome to our newsletter!\nVisit ");
    text.append(link.as_str());
    text.append(" to confirm your subscription.");
    ConfirmationEmail { to, subject: String::from_str("Welcome!"), html_body: html, text_body: text }
}

/// How a submission ended.
pub enum SubmitOutcome {
    /// Validation failed; nothing was written.
    Rejected(ValidationError),
    /// A pending row with this email address already existed; nothing was
    /// written and no email goes out (resubmission is answered as success
    /// without a new row).
    DuplicateEmail,
    /// Row and token were written atomically; the caller must now
    /// dispatch the email.
    Stored { id: u128, token: String, email: ConfirmationEmail },
    /// A freshly drawn id or token collided with a stored one; nothing
    /// was written.
    StorageFailed,
}

/// How `submit` relates the store before and after to its outcome, for
/// given raw inputs: validation failures and conflicts write nothing, and
/// a success writes exactly one row/token pair and answers with the
/// matching confirmation email.
pub open spec fn submit_rel(
    o: StoreModel,
    n: StoreModel,
    r: SubmitOutcome,
    raw_name: Seq<char>,
    raw_email: Seq<char>,
    base: Seq<char>,
) -> bool {
    match r {
        SubmitOutcome::Rejected(e) => {
            &&& n == o
            &&& !(is_valid_name(raw_name) && is_valid_email(raw_email))
            &&& (e == ValidationError::InvalidName <==> !is_valid_name(raw_name))
        },
        SubmitOutcome::DuplicateEmail => {
            &&& n == o
            &&& is_valid_name(raw_name)
            &&& is_valid_email(raw_email)
            &&& has_email(o, raw_email)
        },
        SubmitOutcome::Stored { id, token, email } => {
            &&& is_valid_name(raw_name)
            &&& is_valid_email(raw_email)
            &&& !has_email(o, raw_email)
            &&& !has_id(o, id)
            &&& !has_token(o, token@)
            &&& exists|now: i64| n == insert_model(o, id, token@, now, raw_name, raw_email)
            &&& token@.len() == 64
            &&& forall|i: int| 0 <= i < token@.len() ==> is_lower_hex_char(#[trigger] token@[i])
            &&& confirmation_email_for(email, base, raw_email, token@)
            &&& resolve_model(n, token@) == Some(id)
        },
        SubmitOutcome::StorageFailed => {
            &&& n == o
            &&& is_valid_name(raw_name)
            &&& is_valid_email(raw_email)
            &&& !has_email(o, raw_email)
            // A failure is a collision of a fresh draw with a stored id
            // or token, so it cannot happen against an empty store: a
            // valid, fresh submission there is owed success.
            &&& o.subs.len() + o.tokens.len() > 0
        },
    }
}

/// Handle a raw submission end to end: validate, write the pending
/// row/token pair atomically, and hand back the confirmation email to
/// dispatch. Invalid input is rejected before anything touches the
/// store; a duplicate email writes nothing.
pub fn submit(store: &mut Store, base_url: &str, raw_name: String, raw_email: String) -> (r:
    SubmitOutcome)
    requires
        old(store).wf(),
    ensures
        final(store).wf(),
        submit_rel(old(store)@, final(store)@, r, raw_name@, raw_email@, base_url@),
{
    let ns = match parse_new_subscriber(raw_name, raw_email) {
        Ok(ns) => ns,
        Err(e) => { return SubmitOutcome::Rejected(e); },
    };
    if store.email_taken(ns.email.as_str()) {
        return SubmitOutcome::DuplicateEmail;
    }
    let id = new_subscriber_id();
    let token = generate_token();
    let now = now_timestamp();
    match store.insert_pending(id, token.clone(), now, &ns) {
        Ok(()) => {
            proof {
                lemma_insert_resolves(old(store)@, id, token@, now, ns.name@, ns.email@);
            }
            let email = build_confirmation_email(base_url, ns.email.to_text(), token.as_str());
            SubmitOutcome::Stored { id, token, email }
        },
        Err(InsertError::DuplicateEmail) => SubmitOutcome::DuplicateEmail,
        Err(InsertError::IdTaken) => SubmitOutcome::StorageFailed,
        Err(InsertError::TokenTaken) => SubmitOutcome::StorageFailed,
    }
}

/// How a confirmation attempt ended. A missing token parameter is kept
/// apart from a token that is present but unknown.
pub enum ConfirmOutcome {
    /// No token parameter was supplied at all.
    MissingToken,
    /// The token is not in the store.
    UnknownToken,
    /// The subscriber owning the token is now confirmed.
    Confirmed { id: u128 },
}

/// Present a token (or note that none was supplied). Only a stored token
/// mutates anything, and then only the owning subscriber's status.
pub fn confirm(store: &mut Store, token: Option<&String>) -> (r: ConfirmOutcome)
    requires
        old(store).wf(),
    ensures
        final(store).wf(),
        match r {
            ConfirmOutcome::MissingToken => final(store)@ == old(store)@ && token is None,
            ConfirmOutcome::UnknownToken => {
                &&& final(store)@ == old(store)@
                &&& token matches Some(t) && resolve_model(old(store)@, t@) is None
            },
            ConfirmOutcome::Confirmed { id } => {
                &&& token matches Some(t) && resolve_model(old(store)@, t@) == Some(id)
                &&& final(store)@ == mark_model(old(store)@, id)
                &&& status_of(final(store)@, id) == SubscriptionStatus::Confirmed
            },
        },
{
    let t = match token {
        Some(t) => t,
        None => { return ConfirmOutcome::MissingToken; },
    };
    let id = match store.resolve(t.as_str()) {
        Some(id) => id,
        None => { return ConfirmOutcome::UnknownToken; },
    };
    proof {
        let m = store@;
        assert(has_token(m, t@));
        let w = crate::store::token_index(m, t@);
        assert(m.tokens[w].token == t@);
        assert(has_id(m, m.tokens[w].subscriber_id));
        assert(m.tokens[w].subscriber_id == id);
    }
    match store.mark_confirmed(id) {
        Ok(()) => {
            proof {
                lemma_mark_confirms(old(store)@, id);
            }
            ConfirmOutcome::Confirmed { id }
        },
        Err(StoreError::UnknownSubscriber) => {
            proof {
                assert(false);
            }
            ConfirmOutcome::UnknownToken
        },
    }
}

/// Law: from any well-formed store, a valid submission followed
/// immediately by confirmation with the issued token leaves that
/// subscriber confirmed, and the store well formed.
pub proof fn lemma_submit_then_confirm(
    m: StoreModel,
    id: u128,
    token: Seq<char>,
    now: i64,
    name: Seq<char>,
    email: Seq<char>,
)
    requires
        wf_model(m),
        is_valid_name(name),
        is_valid_email(email),
        !has_email(m, email),
        !has_id(m, id),
        !has_token(m, token),
    ensures
        resolve_model(insert_model(m, id, token, now, name, email), token) == Some(id),
        status_of(
            mark_model(insert_model(m, id, token, now, name, email), id),
            id,
        ) == SubscriptionStatus::Confirmed,
        wf_model(mark_model(insert_model(m, id, token, now, name, email), id)),
{
    let n = insert_model(m, id, token, now, name, email);
    lemma_insert_preserves_wf(m, id, token, now, name, email);
    lemma_insert_resolves(m, id, token, now, name, email);
    assert(n.subs[m.subs.len() as int].id == id);
    assert(has_id(n, id));
    lemma_mark_confirms(n, id);
    lemma_mark_preserves_wf(n, id);
}

} // verus!
