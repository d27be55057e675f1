use vstd::prelude::*;

pub mod razz;

verus! {

} // verus!
