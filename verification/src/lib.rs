//! A benchmarking harness that contrasts the latency of two data-access
//! strategies over the same relational data: querying CSV-backed virtual
//! tables that are re-parsed from disk on every access, versus querying the
//! same rows after they have been materialized into in-memory tables.
//!
//! The verified core is the harness logic itself: the exact SQL texts it
//! issues, the catalog of relation names it maintains (with its uniqueness
//! invariant), and a relational model of the two query shapes — a filtered
//! single-table count and a filtered equi-join count — with proofs that both
//! counts depend only on the contents of the relations, not on row order or
//! on which backing strategy produced them. The query engine itself
//! (SQLite, through rusqlite) is an external collaborator reached through a
//! small set of trusted wrappers.

pub mod engine;
pub mod model;
pub mod session;
pub mod sql;
