//! Browser fingerprints: the catalogue to choose from and a profile's choice.

use vstd::prelude::*;

verus! {

/// The catalogue of fingerprint values, one list of alternatives per
/// operating system.
#[derive(Debug)]
pub struct FingerprintManager {
    pub os_type: Vec<Vec<String>>,
}

/// The fingerprint of one profile.
#[derive(Debug)]
pub struct SingleFingerprint {
    pub os_type: String,
}

impl Clone for SingleFingerprint {
    fn clone(&self) -> (r: Self)
        ensures
            r == *self,
    {
        SingleFingerprint { os_type: self.os_type.clone() }
    }
}

impl SingleFingerprint {
    /// A fingerprint that names no operating system.
    pub fn new() -> (r: Self)
        ensures
            r.os_type@ == Seq::<char>::empty(),
    {
        SingleFingerprint { os_type: String::new() }
    }
}

impl FingerprintManager {
    /// An empty catalogue.
    pub fn new() -> (r: Self)
        ensures
            r.os_type@.len() == 0,
    {
        FingerprintManager { os_type: Vec::new() }
    }
}

} // verus!
