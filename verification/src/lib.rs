//! Battery dispatch from dynamic electricity prices.
//!
//! Given the price of the current slot, the window of upcoming price slots
//! and the battery's state of charge, the engine decides whether the battery
//! charges, discharges or follows the house, and at which grid setpoint.
//!
//! Every quantity is a fixed-point integer; `units` names the scales.
//! Contracts are stated over mathematical integers and sequences, so a
//! decision is a function of its inputs and nothing else.
//!
//! - `tibber`: price points, the snapshot of known prices, its forecast
//!   window and statistics.
//! - `tiers`: the four price thresholds of a window.
//! - `plan`: the charge plan.
//! - `optimizer`: the three rules and the decision they make.
//! - `forecast`: the outlook published beside a decision.
//! - `controller`: one tick of the control loop.
//! - `mqtt`, `telemetry`: what goes out over the broker and what comes in.
//! - `config`: the settings and their defaults.
//! - `window`, `order`, `units`, `time`, `text`, `reasons`: the sequences,
//!   arithmetic, instants and texts the others are built on.

pub mod config;
pub mod controller;
pub mod forecast;
pub mod mqtt;
pub mod optimizer;
pub mod order;
pub mod plan;
pub mod reasons;
pub mod telemetry;
pub mod text;
pub mod tibber;
pub mod tiers;
pub mod time;
pub mod units;
pub mod window;
