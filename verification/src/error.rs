//! Error values of the scene core.

use vstd::prelude::*;

verus! {

/// The kinds of GPU resource a drawable asks the backend to create.
#[derive(Clone, Copy, Debug, PartialEq, Eq, Structural)]
pub enum ResourceKind {
    VertexBuffer,
    IndexBuffer,
    Program,
    Texture,
}

/// Why a drawable's resources could not be brought into being.
#[derive(Clone, Copy, Debug, PartialEq, Eq, Structural)]
pub enum ResourceCreationError {
    /// The backend refused the request at `position` in the drawable's
    /// request list; `resource` is the kind that was asked for.
    Rejected { resource: ResourceKind, position: usize },
    /// The image bytes are not a readable PNG.
    ImageDecode,
    /// The image has no pixels: its width or its height is zero.
    EmptyImage,
    /// The number of pixel bytes is not four times width times height.
    DimensionMismatch,
    /// Positions and normals differ in number.
    NormalCountMismatch,
    /// The number of indices is not a multiple of three.
    IncompleteTriangle,
    /// The index at `position` names no vertex.
    IndexOutOfRange { position: usize },
    /// A drawable handed to the scene has not finished creating its
    /// resources; `index` is its place in the list.
    NotReady { index: usize },
}

/// Why a frame was not shown.
#[derive(Clone, Copy, Debug, PartialEq, Eq, Structural)]
pub enum FrameError {
    /// The backend refused the draw command of the drawable at `index`.
    Draw { index: usize },
    /// The backend refused to present the finished frame.
    Presentation,
}

/// A quotient was asked for with a zero divisor.
#[derive(Clone, Copy, Debug, PartialEq, Eq, Structural)]
pub struct DivideByZero;

} // verus!
