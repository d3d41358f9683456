//! Opaque, never-null handles to engine objects.

use vstd::prelude::*;

verus! {

/// The address of one engine object.
///
/// A handle is never null: the only way to make one is [`Handle::from_raw`],
/// which answers a null pointer with `None`. Two handles are equal exactly
/// when they hold the same address. The core never looks behind a handle; it
/// only hands the address back to the engine.
#[derive(Clone, Copy, Debug, PartialEq, Eq, Structural)]
pub struct Handle {
    addr: usize,
}

impl Handle {
    #[verifier::type_invariant]
    spec fn non_null(self) -> bool {
        self.addr != 0
    }

    /// The handle that stands for the address `addr`.
    pub closed spec fn at(addr: usize) -> Handle {
        Handle { addr }
    }

    /// The address this handle stands for.
    pub closed spec fn address(&self) -> usize {
        self.addr
    }

    /// The handle for an address stands for that address.
    pub broadcast proof fn lemma_at_address(addr: usize)
        ensures
            #[trigger] Handle::at(addr).address() == addr,
    {
    }

    /// A handle is its address and nothing more.
    pub broadcast proof fn lemma_address_at(h: Handle)
        ensures
            Handle::at(#[trigger] h.address()) == h,
    {
    }

    /// Equality of handles is equality of addresses.
    pub proof fn lemma_identity(a: Handle, b: Handle)
        ensures
            (a == b) <==> (a.address() == b.address()),
    {
    }

    /// Checks a pointer value that the engine handed back: a null pointer is
    /// no object, any other address is the handle of one.
    pub fn from_raw(addr: usize) -> (r: Option<Handle>)
        ensures
            r == (if addr == 0 {
                None
            } else {
                Some(Handle::at(addr))
            }),
            r matches Some(h) ==> h.address() == addr,
    {
        if addr == 0 {
            None
        } else {
            Some(Handle { addr })
        }
    }

    /// The address to pass back to the engine. It is never null.
    #[verifier::when_used_as_spec(address)]
    pub fn addr(&self) -> (r: usize)
        ensures
            r == self.address(),
            r != 0,
    {
        proof {
            use_type_invariant(self);
        }
        self.addr
    }
}

/// What a handle is made of, for proofs outside this file.
pub broadcast group group_handle {
    Handle::lemma_at_address,
    Handle::lemma_address_at,
}

} // verus!
