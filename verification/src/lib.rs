//! Focus-driven control of NVIDIA digital vibrance.
//!
//! The crate holds the decisions of a vibrance monitor: how a percent level
//! maps onto the range a display reports ([`dvc`]), which vendor calls an
//! operation makes and in what order ([`operation`], [`vibrance`]), and
//! when the polling loop writes to the hardware at all ([`monitor`]). Raw
//! vendor calls and operating-system queries are made by the caller, which
//! feeds their results back in as plain values. Beside the monitor stands
//! the reader of the power plan listing ([`power`]).

pub mod dvc;
pub mod error;
pub mod monitor;
pub mod operation;
pub mod power;
pub mod vibrance;
