//! Laws of the library: what its operations owe their callers, stated of what a
//! call is given and what it returns.
pub mod admin;
pub mod answers;
pub mod blocklist;
pub mod challenges;
pub mod changes;
pub mod crawl;
pub mod detection;
pub mod edge;
pub mod escalation;
pub mod monitoring;
pub mod oidc;
pub mod origin;
pub mod passkeys;
pub mod providers;
pub mod reading;
pub mod tarpit;
pub mod texts;
pub mod trainer;
