//! The seal: traits of this library that bound on [`Sealed`] cannot be
//! implemented elsewhere.

use vstd::prelude::*;

verus! {

pub trait Sealed {

}

impl Sealed for u64 {

}

impl Sealed for String {

}

} // verus!
