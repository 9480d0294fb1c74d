use vstd::prelude::*;

verus! {

/// What a characteristic stands for (brightness, temperature, ...), as the
/// protocol numbers it: the short form of the characteristic's type UUID.
///
/// A characteristic never interprets it. It is handed to the hooks and
/// written out with the metadata.
#[derive(Clone, Copy, Debug, PartialEq, Eq, Structural)]
pub struct HapType(pub u32);

} // verus!
