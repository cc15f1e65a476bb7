//! Queries on the state of an account at a version of the ledger: which
//! version a query is answered at, which resource and which field it finds,
//! and how a field is read as the handle of an event stream. Beside them,
//! where the artifacts of a release are found and in which order its
//! modules come.

use vstd::prelude::*;

pub mod account;
pub mod address;
pub mod error;
pub mod event;
pub mod legacy;
pub mod releases;
pub mod script;
mod sorting;
pub mod state;
pub mod tag;
pub mod value;
pub mod version;
