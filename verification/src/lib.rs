//! Core of a mailing-list backend: validated subscriber identities, an
//! in-memory subscription store with a confirmation-token protocol, the
//! submit/confirm workflow, operator authorization, and newsletter fan-out
//! planning. Storage engines, HTTP framework wiring and the outbound mail
//! transport are collaborators that live outside this crate; the logic that
//! decides what they are asked to do is verified here.

pub mod auth;
pub mod clock;
pub mod configuration;
pub mod domain;
pub mod form;
pub mod http;
pub mod issuer;
pub mod publish;
pub mod store;
pub mod strings;
pub mod workflow;
