//! Marker that keeps a trait's implementations inside this library.

use vstd::prelude::*;

verus! {

pub trait Sealed {

}

} // verus!
