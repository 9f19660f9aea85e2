//! What a model-predictive planner sees of a node.

use vstd::prelude::*;

verus! {

/// The state of a node as a planner reads it.
#[derive(Debug, PartialEq, Eq)]
pub struct MpcStateView {
    /// The heat-stress index.
    pub wbgt_index: i64,
    /// The ambient temperature in degrees Celsius.
    pub ambient_temp_c: i64,
    /// The inlet temperature in degrees Celsius.
    pub inlet_temp_c: i64,
    /// The outlet temperature in degrees Celsius.
    pub outlet_temp_c: i64,
    /// The power drawn, in watts.
    pub current_power_watts: i64,
    /// The exergy destroyed, in joules.
    pub exergy_destruction_joules: i64,
    /// The degradation so far.
    pub degradation_accumulated: i64,
    /// The length of the queue.
    pub queue_length: u32,
    /// The utilisation of the processor.
    pub cpu_utilization: i64,
    /// The utilisation of the graphics processor.
    pub gpu_utilization: i64,
    /// The network latency in milliseconds.
    pub net_latency_ms: i64,
    /// The normalised risks of the node's corridors.
    pub r_vec: Vec<i64>,
    /// The residual of the node.
    pub vt: i64,
}

} // verus!
