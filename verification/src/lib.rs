use vstd::prelude::*;

pub mod confirmation;
pub mod first_seen;
pub mod payments;
pub mod people;
pub mod requests;
pub mod shared;
pub mod std_ext;
pub mod text;
pub mod transfers;
pub mod wallet;

verus! {

} // verus!
