//! Verified core of a campus-network portal login tool.
use vstd::prelude::*;

pub mod login;
pub mod models;
pub mod ocr;
pub mod cli;
pub mod crypto;
pub mod portal;
pub mod storage;
pub mod text;

verus! {

} // verus!
