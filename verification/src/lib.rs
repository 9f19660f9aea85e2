//! Ecosafety decision core.
//!
//! Raw measurements are normalised into risk coordinates, the coordinates are
//! aggregated into a scalar residual, one step of a controlled process is
//! judged against the previous one, and chains of recorded states are
//! governed as a whole:
//!
//! - [`normalize`] maps a raw measurement and its corridor band to a risk in
//!   the unit interval;
//! - [`residual`] aggregates weighted risks into a residual;
//! - [`decision`] judges one step: `Okay`, `Derate` or `Stop`;
//! - [`composite`] merges the decisions of several domains by dominance;
//! - [`governor`] gives one verdict for a chain of shards.
//!
//! The other modules are the domains that use this core: vehicle filters,
//! recharge cells, pollinator corridors, fog panels, swarm nodes, chat
//! sessions, and the entry points for embedding hosts.
//!
//! Every scalar is a fixed-point number: an `i64` that counts billionths, so
//! that [`fixed::ONE`] stands for 1.0. All functions are total unless their
//! contract says otherwise, and malformed input fails closed: it is answered
//! with `Stop`, or with nothing where a function is a query.

pub mod bands;
pub mod bee_corridor;
pub mod chat;
pub mod composite;
pub mod decision;
pub mod edge;
pub mod feasibility_shard;
pub mod fixed;
pub mod fog;
pub mod foreign;
pub mod governor;
pub mod ker;
pub mod lifeforce;
pub mod mar_sat;
pub mod mar_shard;
pub mod mpc;
pub mod node;
pub mod normalize;
pub mod qpudata;
pub mod research_lines;
pub mod residual;
pub mod response_shard;
pub mod sat_cell;
pub mod shard;
pub mod vehicle_filter;
pub mod voxel;
