use vstd::prelude::*;

verus! {

/// How a triangle is rasterized: `Normal` fills it after drawing the
/// outline, `Wireframe` draws the outline only.
#[derive(Clone, Copy, Debug, PartialEq, Eq, Structural)]
pub enum DrawMode {
    Normal,
    Wireframe,
}

} // verus!
