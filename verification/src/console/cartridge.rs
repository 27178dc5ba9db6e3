use vstd::prelude::*;

verus! {

/// A raw cartridge image: an opaque byte sequence of at most ROM capacity.
#[derive(Debug, Clone)]
pub struct Cartridge {
    pub binary: Vec<u8>,
}

impl Cartridge {
    pub fn new(binary: Vec<u8>) -> (r: Self)
        ensures
            r.binary@ == binary@,
    {
        Cartridge { binary }
    }
}

} // verus!
