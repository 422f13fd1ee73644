//! Descriptors of the AMD devices that a shader can be compiled for.

use vstd::prelude::*;

verus! {

/// One device: its names, and the chip family and revision that the native
/// compiler asks for.
#[derive(Debug, Copy, Clone)]
pub struct Asic {
    pub name: &'static str,
    pub gfxIpString: &'static str,
    pub chipFamily: i32,
    pub chipRevision: i32,
    pub targetName: &'static str,
}

impl Asic {
    /// The descriptor made of (name, graphics IP version, chip family, chip
    /// revision, target name).
    pub fn from_tuple(t: (&'static str, &'static str, i32, i32, &'static str)) -> (asic: Self)
        ensures
            asic.name == t.0,
            asic.gfxIpString == t.1,
            asic.chipFamily == t.2,
            asic.chipRevision == t.3,
            asic.targetName == t.4,
    {
        let (name, gfxIpString, chipFamily, chipRevision, targetName) = t;
        Asic { name, gfxIpString, chipFamily, chipRevision, targetName }
    }
}

} // verus!
