//! ValidatorForge: the verified core of a Solana validator-fleet control plane.
//!
//! Domain values (`ids`, `version_order`, `node`, `ops`, `health`, `event`), the resilience
//! primitives (`breaker`, `ratelimit`, `retry`, `bulkhead`, `timeout`,
//! `clock`), the compensating saga (`saga`), the orchestration decisions
//! (`engine`, `deploy`, `agent`), the stores and simulators (`repo`, `sim`),
//! the advisors (`advisor`, `llm`), infrastructure-as-code rendering (`iac`,
//! `plan`) and the API's input checks and views (`api`, `cli`).

pub mod text;
pub mod time;
mod systime;
pub mod error;
pub mod ids;
pub mod version_order;
pub mod node;
pub mod health;
pub mod ops;
pub mod core_error;
pub mod saga;
pub mod clock;
pub mod breaker;
pub mod ratelimit;
pub mod retry;
pub mod bulkhead;
pub mod timeout;
pub mod config;
pub mod wall_clock;
pub mod event;
pub mod agent;
pub mod engine;
pub mod repo;
pub mod advisor;
pub mod iac;
pub mod cli;
pub mod plan;
pub mod api;
pub mod llm;
pub mod sim;
pub mod deploy;
