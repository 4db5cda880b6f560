//! The wrapper that owns one native puppet handle.

use vstd::prelude::*;
use vstd::utf8::encode_utf8;

use crate::error::{failure, Error, ErrorRecord};
use crate::instance::{Capabilities, Inochi2D};
use crate::lifecycle::{Lifecycle, Transition};
use crate::native::NativeCall;

verus! {

/// The mathematical value of a live wrapper.
pub struct PuppetView {
    /// The address of the owned native handle.
    pub handle: usize,
    /// The display name.
    pub name: Seq<char>,
    /// What the instance that the wrapper is bound to was built with.
    pub capabilities: Capabilities,
}

impl PuppetView {
    /// Where a wrapper with this value stands in its life: it is live.
    pub open spec fn lifecycle(self) -> Lifecycle {
        Lifecycle::Live { handle: self.handle }
    }
}

/// The mathematical value of a load whose native call is outstanding.
pub struct PendingLoadView {
    /// The display name that the wrapper will carry.
    pub name: Seq<char>,
    /// The native call that performs the load.
    pub call: NativeCall,
    /// What the instance that the load is bound to was built with.
    pub capabilities: Capabilities,
}

/// The name of a puppet that was loaded from memory without one.
pub open spec fn in_memory_name() -> Seq<char> {
    "<in-memory-puppet>"@
}

/// A load attempt that waits for the native layer's answer.
///
/// It names the native call to make and keeps the display name until the
/// returned handle is validated by [`PendingLoad::finish`].
#[derive(Debug)]
#[must_use]
pub struct PendingLoad<'a> {
    instance: &'a Inochi2D,
    name: String,
    call: NativeCall,
}

/// One loaded puppet: the sole owner of a native handle that is never null.
///
/// The wrapper borrows its instance, so it cannot outlive it, and
/// [`Inochi2DPuppet::dispose`] takes it by value, so nothing can be asked of
/// it once its handle is released.
#[derive(Debug)]
pub struct Inochi2DPuppet<'a> {
    handle: usize,
    name: String,
    instance: &'a Inochi2D,
}

impl<'a> View for PendingLoad<'a> {
    type V = PendingLoadView;

    closed spec fn view(&self) -> PendingLoadView {
        PendingLoadView {
            name: self.name@,
            call: self.call,
            capabilities: self.instance.spec_capabilities(),
        }
    }
}

impl<'a> View for Inochi2DPuppet<'a> {
    type V = PuppetView;

    closed spec fn view(&self) -> PuppetView {
        PuppetView {
            handle: self.handle,
            name: self.name@,
            capabilities: self.instance.spec_capabilities(),
        }
    }
}

impl<'a> PendingLoad<'a> {
    #[verifier::type_invariant]
    spec fn is_load(&self) -> bool {
        match self.call {
            NativeCall::LoadFromPath { length } => length == encode_utf8(self.name@).len() as usize,
            NativeCall::LoadFromMemory { .. } => true,
            _ => false,
        }
    }

    /// The native call that performs this load. A load from a file reads as
    /// many bytes as the name, which is its path, is long.
    pub fn call(&self) -> (call: NativeCall)
        ensures
            call == self@.call,
            call is LoadFromPath || call is LoadFromMemory,
            call matches NativeCall::LoadFromPath { length } ==> length == encode_utf8(
                self@.name,
            ).len() as usize,
    {
        proof {
            use_type_invariant(self);
        }
        self.call
    }

    /// The display name that the wrapper will carry. For a load from a file it
    /// is the path to hand to the native layer.
    pub fn name(&self) -> (name: &str)
        ensures
            name@ == self@.name,
    {
        self.name.as_str()
    }

    /// Validates the handle that the native layer returned for this load, with
    /// the error record that it left behind.
    ///
    /// A handle that is not null gives the wrapper that owns it, under the
    /// load's name. A null handle gives the failure that the record stands for;
    /// the record is read in no other case.
    pub fn finish(self, handle: usize, error_information: ErrorRecord) -> (puppet: Result<
        Inochi2DPuppet<'a>,
        Error,
    >)
        ensures
            handle != 0 ==> (puppet matches Ok(live) && live@ == (PuppetView {
                handle,
                name: self@.name,
                capabilities: self@.capabilities,
            })),
            handle == 0 ==> (puppet matches Err(error) && error@ == failure(error_information@)),
            puppet matches Ok(live) ==> live@.lifecycle() == Lifecycle::Uninitialized.after(
                Transition::Load { handle },
            ),
            puppet is Err ==> Lifecycle::Uninitialized.after(Transition::Load { handle })
                == Lifecycle::Failed,
    {
        Inochi2DPuppet::from_raw_handle(self.instance, handle, self.name, error_information)
    }
}

impl<'a> Inochi2DPuppet<'a> {
    #[verifier::type_invariant]
    spec fn owns_a_handle(&self) -> bool {
        self.handle != 0
    }

    /// Validates a handle that the native layer returned, with the error
    /// record that it left behind. Every construction passes through here.
    ///
    /// A handle that is not null gives the wrapper that owns it, named `name`
    /// and bound to `instance`. A null handle gives the failure that the record
    /// stands for: `Unavailable` without a record, `Undecodable` for a record
    /// that is not UTF-8, and `Native` with the record's text otherwise. The
    /// record is read in no other case.
    pub fn from_raw_handle(
        instance: &'a Inochi2D,
        handle: usize,
        name: String,
        error_information: ErrorRecord,
    ) -> (puppet: Result<Self, Error>)
        ensures
            handle != 0 ==> (puppet matches Ok(live) && live@ == (PuppetView {
                handle,
                name: name@,
                capabilities: instance.spec_capabilities(),
            })),
            handle == 0 ==> (puppet matches Err(error) && error@ == failure(error_information@)),
            puppet matches Ok(live) ==> live@.lifecycle() == Lifecycle::Uninitialized.after(
                Transition::Load { handle },
            ),
            puppet is Err ==> Lifecycle::Uninitialized.after(Transition::Load { handle })
                == Lifecycle::Failed,
    {
        if handle == 0 {
            Err(Error::from_error_information(error_information))
        } else {
            Ok(Inochi2DPuppet { handle, name, instance })
        }
    }

    /// Begins a load from a buffer of `size` bytes in memory. The wrapper will
    /// be called `name`, or `<in-memory-puppet>` where no name is given.
    pub fn from_raw_parts(instance: &'a Inochi2D, size: usize, name: Option<String>) -> (load:
        PendingLoad<'a>)
        ensures
            load@ == (PendingLoadView {
                name: match name {
                    Some(given) => given@,
                    None => in_memory_name(),
                },
                call: NativeCall::LoadFromMemory { size },
                capabilities: instance.spec_capabilities(),
            }),
    {
        let name = match name {
            Some(given) => given,
            None => "<in-memory-puppet>".to_owned(),
        };
        PendingLoad { instance, name, call: NativeCall::LoadFromMemory { size } }
    }

    /// Begins a load from the file at `puppet`. The wrapper will be called by
    /// the path, exactly as it was given, and the native layer is handed the
    /// path's bytes and their number.
    pub fn new(instance: &'a Inochi2D, puppet: String) -> (load: PendingLoad<'a>)
        ensures
            load@ == (PendingLoadView {
                name: puppet@,
                call: NativeCall::LoadFromPath { length: encode_utf8(puppet@).len() as usize },
                capabilities: instance.spec_capabilities(),
            }),
    {
        let length: usize = puppet.as_str().len();
        PendingLoad { instance, name: puppet, call: NativeCall::LoadFromPath { length } }
    }

    /// The native call that has to follow a load that returned `handle`: error
    /// introspection after a null handle, and none after any other.
    pub fn error_query(handle: usize) -> (call: Option<NativeCall>)
        ensures
            call == (if handle == 0 {
                Some(NativeCall::ErrorGet)
            } else {
                None
            }),
    {
        if handle == 0 {
            Some(NativeCall::ErrorGet)
        } else {
            None
        }
    }

    /// The display name.
    pub fn name(&self) -> (name: &str)
        ensures
            name@ == self@.name,
    {
        self.name.as_str()
    }

    /// One frame's update: the native update call on the owned handle. The
    /// wrapper stays as it is.
    pub fn update(&mut self) -> (call: NativeCall)
        ensures
            final(self)@ == old(self)@,
            old(self)@.handle != 0,
            call == (NativeCall::Update { handle: old(self)@.handle }),
            Some(call) == old(self)@.lifecycle().call(
                Transition::Update,
                old(self)@.capabilities,
            ),
            final(self)@.lifecycle() == old(self)@.lifecycle().after(Transition::Update),
    {
        proof {
            use_type_invariant(&*self);
        }
        NativeCall::Update { handle: self.handle }
    }

    /// One frame's draw: the native draw call on the owned handle where the
    /// instance has a rendering backend, and no call where it has none. The
    /// wrapper stays as it is.
    pub fn draw(&mut self) -> (call: Option<NativeCall>)
        ensures
            final(self)@ == old(self)@,
            old(self)@.handle != 0,
            call == (if old(self)@.capabilities.rendering_backend {
                Some(NativeCall::Draw { handle: old(self)@.handle })
            } else {
                None
            }),
            call == old(self)@.lifecycle().call(Transition::Draw, old(self)@.capabilities),
            final(self)@.lifecycle() == old(self)@.lifecycle().after(Transition::Draw),
    {
        proof {
            use_type_invariant(&*self);
        }
        if self.instance.capabilities().rendering_backend {
            Some(NativeCall::Draw { handle: self.handle })
        } else {
            None
        }
    }

    /// Ends the wrapper's life: the native destroy call on the owned handle.
    /// The wrapper is consumed, so no call can follow this one.
    pub fn dispose(self) -> (call: NativeCall)
        ensures
            self@.handle != 0,
            call == (NativeCall::Destroy { handle: self@.handle }),
            Some(call) == self@.lifecycle().call(Transition::Teardown, self@.capabilities),
            self@.lifecycle().after(Transition::Teardown) == Lifecycle::Disposed,
    {
        proof {
            use_type_invariant(&self);
        }
        NativeCall::Destroy { handle: self.handle }
    }
}

} // verus!
