//! The rules of a defensive service stack against unwanted crawlers: request
//! scoring, attested TLS fingerprints, blocklists, challenges, paid crawling,
//! provider routing, administration and edge operations. Every item states
//! what it decides; the surrounding program does the input and output.
pub mod admin;
pub mod audit;
pub mod auth;
pub mod blocklist;
pub mod captcha;
pub mod cloud_proxy;
pub mod crawl;
pub mod dashboard;
pub mod detection;
pub mod edge;
pub mod escalation;
pub mod frequency;
pub mod headers;
pub mod ip;
pub mod ip_laws;
pub mod json;
pub mod laws;
pub mod mfa;
pub mod model;
pub mod oidc;
pub mod order;
pub mod origin;
pub mod outside;
pub mod passkeys;
pub mod prompt_router;
pub mod providers;
pub mod recommender;
pub mod reply;
pub mod settings;
pub mod tarpit;
pub mod telemetry;
pub mod text;
pub mod text_laws;
pub mod text_map;
pub mod tls;
pub mod trainer;
pub mod webauthn;
pub mod webhook;
