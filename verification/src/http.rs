//! The request-facing decision layer: raw bodies and query strings go
//! in, outcomes and status codes come out. The HTTP framework around it
//! only moves bytes.

use vstd::prelude::*;

use crate::configuration::ApplicationBaseUrl;
use crate::form::{form_field, parse_confirm_query, parse_subscribe_form};
use crate::publish::PublishOutcome;
use crate::store::{mark_model, resolve_model, status_of, Store, SubscriptionStatus};
use crate::workflow::{confirm, submit, submit_rel, ConfirmOutcome, SubmitOutcome};

verus! {

/// Liveness probe: always healthy.
pub fn health_check() -> (r: u16)
    ensures
        r == 200,
{
    200
}

/// How a subscription request ended: the form itself can already be
/// unusable, otherwise the submission outcome speaks.
pub enum SubscribeResult {
    /// The body had no usable `name` or no usable `email` field.
    BadForm,
    /// Both fields were extracted and submitted.
    Submitted(SubmitOutcome),
}

/// Handle a subscription request body end to end: extract the two
/// fields and run the submission workflow on their decoded values.
pub fn handle_subscribe(store: &mut Store, base_url: &ApplicationBaseUrl, body: &str) -> (r:
    SubscribeResult)
    requires
        old(store).wf(),
    ensures
        final(store).wf(),
        match r {
            SubscribeResult::BadForm => {
                &&& final(store)@ == old(store)@
                &&& (form_field(body@, "name"@) is None || form_field(body@, "email"@) is None)
            },
            SubscribeResult::Submitted(o) => {
                &&& form_field(body@, "name"@) matches Some(nm) && form_field(body@, "email"@)
                    matches Some(em) && submit_rel(
                    old(store)@,
                    final(store)@,
                    o,
                    nm,
                    em,
                    base_url.0@,
                )
            },
        },
{
    let form = match parse_subscribe_form(body) {
        Some(form) => form,
        None => { return SubscribeResult::BadForm; },
    };
    SubscribeResult::Submitted(submit(store, base_url.0.as_str(), form.name, form.email))
}

/// The status code of a subscription request. `dispatched` reports
/// whether the confirmation email could be handed to the mail
/// transport; it only matters when one was owed.
pub fn subscribe_status(r: &SubscribeResult, dispatched: bool) -> (s: u16)
    ensures
        match r {
            SubscribeResult::BadForm => s == 400,
            SubscribeResult::Submitted(o) => match o {
                SubmitOutcome::Rejected(_) => s == 400,
                SubmitOutcome::DuplicateEmail => s == 200,
                SubmitOutcome::Stored { .. } => s == if dispatched {
                    200u16
                } else {
                    500u16
                },
                SubmitOutcome::StorageFailed => s == 500,
            },
        },
{
    match r {
        SubscribeResult::BadForm => 400,
        SubscribeResult::Submitted(o) => match o {
            SubmitOutcome::Rejected(_) => 400,
            SubmitOutcome::DuplicateEmail => 200,
            SubmitOutcome::Stored { .. } => if dispatched {
                200
            } else {
                500
            },
            SubmitOutcome::StorageFailed => 500,
        },
    }
}

/// Handle a confirmation request query string end to end: a missing
/// parameter never touches the store, an unknown token never mutates a
/// subscriber, a stored token confirms its owner.
pub fn handle_confirm(store: &mut Store, query: &str) -> (r: ConfirmOutcome)
    requires
        old(store).wf(),
    ensures
        final(store).wf(),
        match r {
            ConfirmOutcome::MissingToken => {
                &&& final(store)@ == old(store)@
                &&& form_field(query@, "subscription_token"@) is None
            },
            ConfirmOutcome::UnknownToken => {
                &&& final(store)@ == old(store)@
                &&& form_field(query@, "subscription_token"@) matches Some(t) && resolve_model(
                    old(store)@,
                    t,
                ) is None
            },
            ConfirmOutcome::Confirmed { id } => {
                &&& form_field(query@, "subscription_token"@) matches Some(t) && resolve_model(
                    old(store)@,
                    t,
                ) == Some(id)
                &&& final(store)@ == mark_model(old(store)@, id)
                &&& status_of(final(store)@, id) == SubscriptionStatus::Confirmed
            },
        },
{
    match parse_confirm_query(query) {
        Some(p) => confirm(store, Some(&p.subscription_token)),
        None => confirm(store, None),
    }
}

/// The status code of a confirmation request: both client errors map to
/// 400, though they stay distinct outcomes.
pub fn confirm_status(r: &ConfirmOutcome) -> (s: u16)
    ensures
        match r {
            ConfirmOutcome::MissingToken => s == 400,
            ConfirmOutcome::UnknownToken => s == 400,
            ConfirmOutcome::Confirmed { .. } => s == 200,
        },
{
    match r {
        ConfirmOutcome::MissingToken => 400,
        ConfirmOutcome::UnknownToken => 400,
        ConfirmOutcome::Confirmed { .. } => 200,
    }
}

/// Status code and challenge header of a publish request: bad
/// credentials are answered 401 together with the challenge to
/// re-authenticate, an incomplete payload 400, and an accepted fan-out
/// 200 — regardless of later per-recipient outcomes.
pub struct PublishHttp {
    pub status: u16,
    pub challenge: Option<String>,
}

/// Map a publish outcome to its HTTP shape.
pub fn publish_http(r: &PublishOutcome) -> (h: PublishHttp)
    ensures
        (h.status == 401) <==> r is AuthRequired,
        (h.status == 400) <==> r is BadContent,
        (h.status == 200) <==> r is Accepted,
        match h.challenge {
            Some(c) => r is AuthRequired && c@ == "Basic realm=\"publish\""@,
            None => !(r is AuthRequired),
        },
{
    match r {
        PublishOutcome::AuthRequired => PublishHttp {
            status: 401,
            challenge: Some(String::from_str("Basic realm=\"publish\"")),
        },
        PublishOutcome::BadContent(_) => PublishHttp { status: 400, challenge: None },
        PublishOutcome::Accepted { .. } => PublishHttp { status: 200, challenge: None },
    }
}

} // verus!
