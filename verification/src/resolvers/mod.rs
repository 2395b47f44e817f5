//! The GraphQL resolvers' own logic, per service: argument reading,
//! permission checks, defaults and page sizes.
pub mod employee;
pub mod expense;
pub mod grievance;
pub mod leave;
pub mod notification;
pub mod operator;
pub mod ops;
pub mod payroll;
pub mod performance;
