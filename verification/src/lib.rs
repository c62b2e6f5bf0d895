//! Verified core of the payslip service: the rules for one-time passwords,
//! access tokens, payslip lookups, CSV previews and the links that the web
//! client builds, stated as contracts and proved with Verus.

pub mod text;
pub mod model;
pub mod error;
pub mod config;
pub mod links;
pub mod token;
pub mod access;
pub mod otp;
pub mod payslip;
pub mod csv_import;
pub mod forms;
pub mod mail;
