//! The initialised native context, to which every wrapper is bound.

use vstd::prelude::*;

use crate::error::{Error, ErrorView};

verus! {

/// What the native layer was built with. It is fixed when the context is set up
/// and decides which operations the wrappers bound to it offer.
#[derive(Clone, Copy, Debug, PartialEq, Eq, Structural)]
pub struct Capabilities {
    /// A rendering backend is present: puppets can be drawn.
    pub rendering_backend: bool,
    /// The embedding program records construction, update, draw and teardown.
    pub diagnostics: bool,
}

/// A native context that was set up successfully.
///
/// Wrappers borrow the instance they were loaded from, so none of them can
/// outlive it.
#[derive(Debug)]
pub struct Inochi2D {
    capabilities: Capabilities,
}

impl Inochi2D {
    /// What the native layer behind this instance was built with.
    pub closed spec fn spec_capabilities(&self) -> Capabilities {
        self.capabilities
    }

    /// Wraps the outcome of the native initialisation: an instance with the
    /// given capabilities if the native call reported success, and
    /// `InitializationError` if it reported failure.
    pub fn create(initialized: bool, capabilities: Capabilities) -> (instance: Result<Inochi2D, Error>)
        ensures
            initialized ==> (instance matches Ok(context) && context.spec_capabilities()
                == capabilities),
            !initialized ==> (instance matches Err(error) && error@
                == ErrorView::InitializationError),
    {
        if initialized {
            Ok(Inochi2D { capabilities })
        } else {
            Err(Error::InitializationError)
        }
    }

    /// What the native layer behind this instance was built with.
    #[verifier::when_used_as_spec(spec_capabilities)]
    pub fn capabilities(&self) -> (capabilities: Capabilities)
        ensures
            capabilities == self.spec_capabilities(),
    {
        self.capabilities
    }
}

} // verus!
