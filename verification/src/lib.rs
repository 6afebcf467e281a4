//! Control of a laptop embedded controller: address resolution from a
//! profile-indexed configuration, 16-bit register access, the domain
//! operations built on both, and a small request/response dispatcher.

pub mod dispatch;
pub mod error;
pub mod isw_config_ops;
pub mod isw_parse;
pub mod isw_raw_access;
pub mod isw_rs_base;
pub mod numeric;
pub mod online;
pub mod text;
