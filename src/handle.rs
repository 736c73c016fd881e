use vstd::prelude::*;

verus! {

/// An opaque reference to an audio asset managed by the asset loader.
///
/// It carries no audio data: it is an identifier that the decoded-asset
/// store may, or may not yet, resolve to playable sound.
#[derive(Clone, Copy, Debug, PartialEq, Eq, Structural)]
pub struct AssetHandle {
    pub id: u64,
}

} // verus!
