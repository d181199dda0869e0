//! A role-based smart thermostat: account and credential policy, lockout
//! escalation, technician access grants, HVAC profiles and schedules, and the
//! source-integrity manifest check.
pub mod text;
pub mod auth;
pub mod lockout;
pub mod grants;
pub mod profile;
pub mod parse;
pub mod crypto;
pub mod audit;
pub mod roles;
pub mod sensors;
pub mod localtime;
