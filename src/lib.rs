//! Instruction processor of a custody program that keeps per-owner token
//! balances in fixed-layout records, moves tokens between users and a pooled
//! vault, and hands records to a delegation service and back.
//!
//! Each handler checks the accounts it is given and returns an [`action::Action`]:
//! the one service call to make, then the record bytes to write.
pub mod account;
pub mod action;
pub mod address;
pub mod custody;
pub mod delegation;
pub mod dispatch;
pub mod error;
pub mod flags;
pub mod instruction;
pub mod permission;
pub mod state;
pub mod validate;
