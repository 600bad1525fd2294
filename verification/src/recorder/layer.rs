//! Composable wrapper layers, collected at build time and applied by the
//! embedding code upon installation.

use vstd::prelude::*;

verus! {

/// No-op layer that leaves a recorder as it is.
#[derive(Clone, Copy, Debug)]
pub struct Identity;

/// A stack of layers, nesting the layers themselves: the head wraps
/// whatever the tail produces.
///
/// The stack only carries the layers; the embedding code applies them,
/// outermost last, when the recorder is installed.
#[derive(Clone, Copy, Debug)]
pub struct Stack<Head = Identity, Tail = Identity>(pub Head, pub Tail);

impl Stack {
    /// A growable stack of layers, no-op by default.
    pub fn identity() -> (s: Self)
        ensures
            s == (Stack(Identity, Identity)),
    {
        Stack(Identity, Identity)
    }
}

impl<H, T> Stack<H, T> {
    /// Pushes `layer` on top of this stack, wrapping it.
    pub fn push<L>(self, layer: L) -> (r: Stack<L, Self>)
        ensures
            r == (Stack(layer, self)),
    {
        Stack(layer, self)
    }
}

} // verus!
