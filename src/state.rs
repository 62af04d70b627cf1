use vstd::prelude::*;

verus! {

/// Which faces are culled.
#[derive(Debug, Clone, Copy, PartialEq, Eq, Structural)]
pub enum Cull {
    Nothing,
    Front,
    Back,
    FrontAndBack,
}

/// How a fragment's depth is compared with the stored depth.
#[derive(Debug, Clone, Copy, PartialEq, Eq, Structural)]
pub enum DepthTest {
    Always,
    Never,
    Less,
    LessOrEqual,
    Equal,
    NotEqual,
    Greater,
    GreaterOrEqual,
}

/// Which buffers a draw writes to.
#[derive(Debug, Clone, Copy, PartialEq, Eq, Structural)]
pub enum WriteMask {
    Color,
    Depth,
    ColorAndDepth,
    Nothing,
}

/// Pipeline state that is applied immediately before a draw.
#[derive(Debug, Clone, Copy, PartialEq, Eq, Structural)]
pub struct RenderStates {
    pub cull: Cull,
    pub depth_test: DepthTest,
    pub write_mask: WriteMask,
}

impl Default for RenderStates {
    fn default() -> (r: RenderStates)
        ensures
            r == (RenderStates {
                cull: Cull::Nothing,
                depth_test: DepthTest::Less,
                write_mask: WriteMask::ColorAndDepth,
            }),
    {
        RenderStates { cull: Cull::Nothing, depth_test: DepthTest::Less, write_mask: WriteMask::ColorAndDepth }
    }
}

/// An 8-bit-per-channel color.
#[derive(Debug, Clone, Copy, PartialEq, Eq, Structural)]
pub struct Rgba {
    pub red: u8,
    pub green: u8,
    pub blue: u8,
    pub alpha: u8,
}

/// What a render target clears before drawing: the color, the depth, both or
/// neither, each with the value to clear to. A depth is a fraction of
/// `u32::MAX`, which stands for the far plane.
#[derive(Debug, Clone, Copy, PartialEq, Eq, Structural)]
pub struct ClearState {
    pub color: Option<Rgba>,
    pub depth: Option<u32>,
}

impl ClearState {
    pub open spec fn clears_anything(&self) -> bool {
        self.color.is_some() || self.depth.is_some()
    }

    pub fn none() -> (r: ClearState)
        ensures
            r.color.is_none() && r.depth.is_none(),
    {
        ClearState { color: None, depth: None }
    }

    pub fn color(red: u8, green: u8, blue: u8, alpha: u8) -> (r: ClearState)
        ensures
            r.color == Some(Rgba { red, green, blue, alpha }),
            r.depth.is_none(),
    {
        ClearState { color: Some(Rgba { red, green, blue, alpha }), depth: None }
    }

    pub fn depth(depth: u32) -> (r: ClearState)
        ensures
            r.color.is_none(),
            r.depth == Some(depth),
    {
        ClearState { color: None, depth: Some(depth) }
    }

    pub fn color_and_depth(red: u8, green: u8, blue: u8, alpha: u8, depth: u32) -> (r: ClearState)
        ensures
            r.color == Some(Rgba { red, green, blue, alpha }),
            r.depth == Some(depth),
    {
        ClearState { color: Some(Rgba { red, green, blue, alpha }), depth: Some(depth) }
    }
}

impl Default for ClearState {
    fn default() -> (r: ClearState)
        ensures
            r.color.is_none() && r.depth.is_none(),
    {
        ClearState::none()
    }
}

} // verus!
