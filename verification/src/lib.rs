//! The verified core of a photo library manager: protected library setup and unlocking,
//! source review decisions, and catalogue search.
use vstd::prelude::*;

pub mod dates;
pub mod hexcode;
pub mod import_source;
pub mod keys;
pub mod library;
pub mod paths;
pub mod review;
pub mod search;
pub mod similarity;
pub mod tag_input;
pub mod text;

verus! {

} // verus!
