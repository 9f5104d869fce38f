//! A trait that is public in name only: nothing outside this crate can reach it.

use crate::rollback::RollbackError;
use core::fmt::Display;
use vstd::prelude::*;

verus! {

/// Keeps a trait to the types of this crate that implement it.
pub trait Sealed {

}

impl Sealed for () {

}

impl<E: Display + Send + Sync + 'static> Sealed for RollbackError<E> {

}

} // verus!
