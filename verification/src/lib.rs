//! Pacing and shared control state for a small gravitational simulation: the
//! rate governor that paces the integrator's loop, and the state through which
//! the integrator and a display exchange snapshots, pause and reseed requests.

pub mod control;
pub mod loop_limiter;
