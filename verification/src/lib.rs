//! Verified core of a pull-request monitoring engine.
//!
//! The engine tracks a user-curated set of pull requests and, once per
//! polling cycle, decides for each open record whether it needs an
//! automatic action: updating its branch, marking it closed, or alerting
//! the user.  Everything that talks to the outside world (the remote
//! code-review service, durable storage, desktop notifications, the UI
//! shell) is a collaborator that a thin unverified driver owns; this
//! crate holds the decisions and proves them.

pub mod dispatch;
pub mod engine;
pub mod errors;
pub mod outcome;
pub mod record;
pub mod scheduler;
pub mod settings;
pub mod store;
pub mod url;
