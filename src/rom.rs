use vstd::prelude::*;

verus! {

/// A cartridge image, absent when it could not be read.
pub struct ROM {
    pub data: Option<Vec<u8>>,
}

} // verus!
