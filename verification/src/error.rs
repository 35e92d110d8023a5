use vstd::prelude::*;

verus! {

/// Everything that can go wrong while building a graph or recording a frame.
///
/// The first four variants are construction-time errors: they are reported
/// synchronously by `add` or `resolve_order` and leave no sensible partial
/// graph behind.  `NoRenderTarget` and `OutOfDeviceMemory` are per-frame
/// errors; a frame that hits one must be abandoned, never submitted half
/// recorded.
#[derive(Clone, Copy, Debug, PartialEq, Eq, Structural)]
pub enum GraphError {
    /// A dependency edge names a node that was never registered.
    UnknownDependency,
    /// A node with this name is already registered.
    DuplicateNode,
    /// The dependency relation admits no schedule: some node depends,
    /// possibly through others, on itself.
    CyclicDependency,
    /// A lookup names a node that does not exist.
    UnknownNode,
    /// The node has no output target, or it was already pulled.
    NoOutput,
    /// A pass had neither its own output target nor a swap image to draw to.
    NoRenderTarget,
    /// The device could not allocate a render target.
    OutOfDeviceMemory,
}

} // verus!
