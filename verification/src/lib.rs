//! Verified core of the KabiPay HR/payroll services.
use vstd::prelude::*;

pub mod approvals;
pub mod billing;
pub mod calendar;
pub mod csv;
pub mod employee;
pub mod decimal;
pub mod error;
pub mod ids;
pub mod leave;
pub mod notification;
pub mod ops;
pub mod payroll;
pub mod payroll_admin;
pub mod profile;
pub mod payroll_export;
pub mod requests;
pub mod resolvers;
pub mod scope;
pub mod statutory;
pub mod storage;
pub mod text;
pub mod token;
pub mod workflow;

verus! {

} // verus!
