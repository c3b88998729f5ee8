//! Order construction for a leveraged-trading protocol: unit scaling,
//! collateral resolution, native-asset wrapping, per-family order requests,
//! atomic transaction assembly and outcome reporting.

pub mod address;
pub mod assemble;
pub mod collateral;
pub mod command;
pub mod error;
pub mod instruction;
pub mod listing;
pub mod market;
pub mod order;
pub mod pipeline;
pub mod position;
pub mod swap;
pub mod units;
pub mod wallet;
pub mod wrap;
