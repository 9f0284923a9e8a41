//! The instance-interface table: the one piece of data the module serves.
//!
//! The host dereferences the real table by field offset, so its layout is
//! fixed by the host's ABI. Here the table is modeled as an immutable
//! record of five callback references, one per slot, in the mandated
//! order; the adapter that exposes it to the host turns each reference
//! into the matching function pointer.

use vstd::prelude::*;

verus! {

/// Which of the module's five capability callbacks a table slot refers to.
#[derive(Clone, Copy, Debug, PartialEq, Eq, Structural)]
pub enum CallbackRef {
    DidCreate,
    DidDestroy,
    DidChangeView,
    DidChangeFocus,
    HandleDocumentLoad,
}

/// The instance-capability table: five callback slots in the order the
/// host mandates (create, destroy, view-changed, focus-changed,
/// document-load-handled).
#[derive(Clone, Copy, Debug, PartialEq, Eq, Structural)]
pub struct InstanceInterfaceTable {
    pub did_create: CallbackRef,
    pub did_destroy: CallbackRef,
    pub did_change_view: CallbackRef,
    pub did_change_focus: CallbackRef,
    pub handle_document_load: CallbackRef,
}

impl InstanceInterfaceTable {
    /// A table is well formed when every slot refers to the callback the
    /// host expects at that offset.
    pub open spec fn wf(self) -> bool {
        &&& self.did_create == CallbackRef::DidCreate
        &&& self.did_destroy == CallbackRef::DidDestroy
        &&& self.did_change_view == CallbackRef::DidChangeView
        &&& self.did_change_focus == CallbackRef::DidChangeFocus
        &&& self.handle_document_load == CallbackRef::HandleDocumentLoad
    }

    /// The one table the module ever serves.
    pub open spec fn canonical() -> InstanceInterfaceTable {
        InstanceInterfaceTable {
            did_create: CallbackRef::DidCreate,
            did_destroy: CallbackRef::DidDestroy,
            did_change_view: CallbackRef::DidChangeView,
            did_change_focus: CallbackRef::DidChangeFocus,
            handle_document_load: CallbackRef::HandleDocumentLoad,
        }
    }

    /// Builds the canonical table. There is no other constructor, so no
    /// ill-formed table can be produced, and the type offers no mutation.
    pub fn new() -> (t: InstanceInterfaceTable)
        ensures
            t == InstanceInterfaceTable::canonical(),
            t.wf(),
    {
        InstanceInterfaceTable {
            did_create: CallbackRef::DidCreate,
            did_destroy: CallbackRef::DidDestroy,
            did_change_view: CallbackRef::DidChangeView,
            did_change_focus: CallbackRef::DidChangeFocus,
            handle_document_load: CallbackRef::HandleDocumentLoad,
        }
    }
}

/// The canonical table is well formed: each of its five slots holds the
/// callback reference the host mandates for that position.
pub proof fn lemma_canonical_wf()
    ensures
        InstanceInterfaceTable::canonical().wf(),
{
}

/// What an interface lookup yields: either nothing (the requested
/// capability is not provided) or the instance capability, carrying the
/// table to serve.
#[derive(Clone, Copy, Debug, PartialEq, Eq, Structural)]
pub enum Capability {
    NoCapability,
    InstanceCapability(InstanceInterfaceTable),
}

} // verus!
