//! Handles of registry entries and references to the script objects they serve.

use vstd::prelude::*;

verus! {

/// Position of a script object in the object store.
pub type ObjectId = usize;

/// A generation-tagged index into the registry.
///
/// A handle is plain data, safe to pass to backend tasks. Two handles are the
/// same connection only if both parts agree, so a slot that is used again
/// after a removal is never reached through the handle of its former tenant.
#[derive(Clone, Copy, Debug, PartialEq, Eq, Hash, Structural)]
pub struct SocketHandle {
    pub index: usize,
    pub generation: u64,
}

/// The script object that a connection notifies, by engine.
#[derive(Clone, Copy, Debug, PartialEq, Eq, Structural)]
pub enum SocketKind {
    /// A socket object of the Modern engine.
    Avm2(ObjectId),
    /// An object of the Legacy engine.
    Avm1(ObjectId),
}

impl SocketKind {
    /// The object referred to, whichever the engine.
    pub open spec fn spec_object(self) -> ObjectId {
        match self {
            SocketKind::Avm2(id) => id,
            SocketKind::Avm1(id) => id,
        }
    }

    #[verifier::when_used_as_spec(spec_object)]
    pub fn object(self) -> (id: ObjectId)
        ensures
            id == self.spec_object(),
    {
        match self {
            SocketKind::Avm2(id) => id,
            SocketKind::Avm1(id) => id,
        }
    }
}

} // verus!
