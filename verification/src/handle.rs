//! The ownership seam between caller-held buffers and the native kernel.
//!
//! When a matrix is handed to the factorization kernel, its backing
//! buffers change hands: from then on the kernel frees them, unless the
//! caller explicitly reclaims them through a destroy call that releases
//! only the lightweight handle.  Violating that protocol — freeing on
//! both sides, or touching a buffer after handing it over — corrupts
//! memory silently, so the transitions are modelled here as a
//! runtime-checked state machine with proved exactly-once behaviour:
//!
//! * `Caller` — the handle holds the buffers; the caller may transfer
//!   them to the kernel.
//! * `Kernel` — the buffers are on the kernel side; the caller may
//!   reclaim them once, or record that the kernel freed them.
//! * `Released` — the storage is gone; every further operation fails.

use vstd::prelude::*;

verus! {

/// Who is responsible for the buffers behind a handle.
#[derive(Clone, Copy, Debug, PartialEq, Eq, Structural)]
pub enum BufferOwner {
    /// The handle itself holds the buffers.
    Caller,
    /// The buffers have been handed to the native kernel.
    Kernel,
    /// The storage has been freed; nothing may touch it again.
    Released,
}

/// A protocol violation, reported instead of performing the transition.
#[derive(Clone, Copy, Debug, PartialEq, Eq, Structural)]
pub enum OwnershipError {
    /// The handle does not hold the buffers, so it cannot hand them over.
    BuffersNotHeld,
    /// The kernel does not hold the buffers, so nothing can come back or
    /// be freed on its side.
    BuffersNotWithKernel,
    /// The handle was already released.
    HandleReleased,
}

/// A handle for buffers whose ownership crosses the kernel boundary.
///
/// `B` is whatever bundle of buffers the native call consumes — the
/// three arrays of a compressed-column matrix, or the single buffer of a
/// dense one.
#[derive(Debug)]
pub struct MatrixHandle<B> {
    owner: BufferOwner,
    payload: Option<B>,
}

impl<B> MatrixHandle<B> {
    /// Who holds the buffers now.
    pub closed spec fn owner_spec(self) -> BufferOwner {
        self.owner
    }

    /// The buffers, while the handle holds them.
    pub closed spec fn payload_spec(self) -> Option<B> {
        self.payload
    }

    /// The handle holds buffers exactly while it is caller-owned.
    pub open spec fn wf(self) -> bool {
        self.payload_spec() is Some <==> self.owner_spec() is Caller
    }

    /// Wrap caller-owned buffers into a handle.
    pub fn new(payload: B) -> (r: Self)
        ensures
            r.wf(),
            r.owner_spec() is Caller,
            r.payload_spec() == Some(payload),
    {
        MatrixHandle { owner: BufferOwner::Caller, payload: Some(payload) }
    }

    /// Who holds the buffers now.
    pub fn owner(&self) -> (r: BufferOwner)
        ensures
            r == self.owner_spec(),
    {
        self.owner
    }

    /// Hand the buffers to the kernel.
    ///
    /// Succeeds exactly once per handle: afterwards the handle holds
    /// nothing, and a second transfer reports the violation instead.
    pub fn transfer_to_kernel(&mut self) -> (r: Result<B, OwnershipError>)
        requires
            old(self).wf(),
        ensures
            final(self).wf(),
            old(self).owner_spec() is Caller ==> (r matches Ok(b) && Some(b) == old(
                self,
            ).payload_spec() && final(self).owner_spec() is Kernel),
            old(self).owner_spec() is Kernel ==> r == Err::<B, OwnershipError>(
                OwnershipError::BuffersNotHeld,
            ) && *final(self) == *old(self),
            old(self).owner_spec() is Released ==> r == Err::<B, OwnershipError>(
                OwnershipError::HandleReleased,
            ) && *final(self) == *old(self),
    {
        match self.owner {
            BufferOwner::Caller => {
                let b = self.payload.take();
                self.owner = BufferOwner::Kernel;
                match b {
                    Some(b) => Ok(b),
                    None => {
                        proof {
                            assert(false);
                        }
                        Err(OwnershipError::BuffersNotHeld)
                    },
                }
            },
            BufferOwner::Kernel => Err(OwnershipError::BuffersNotHeld),
            BufferOwner::Released => Err(OwnershipError::HandleReleased),
        }
    }

    /// Take the buffers back from the kernel after a destroy call that
    /// freed only the kernel-side handle.
    ///
    /// This is the one reclaim path, and it excludes a kernel-side free
    /// of the same buffers: a handle that was released instead reports
    /// the violation, and the caller gets the buffers straight back.
    pub fn reclaim(&mut self, payload: B) -> (r: Result<(), (OwnershipError, B)>)
        requires
            old(self).wf(),
        ensures
            final(self).wf(),
            old(self).owner_spec() is Kernel ==> r is Ok && final(self).owner_spec() is Caller
                && final(self).payload_spec() == Some(payload),
            old(self).owner_spec() is Caller ==> r == Err::<(), (OwnershipError, B)>(
                (OwnershipError::BuffersNotWithKernel, payload),
            ) && *final(self) == *old(self),
            old(self).owner_spec() is Released ==> r == Err::<(), (OwnershipError, B)>(
                (OwnershipError::HandleReleased, payload),
            ) && *final(self) == *old(self),
    {
        match self.owner {
            BufferOwner::Kernel => {
                self.payload = Some(payload);
                self.owner = BufferOwner::Caller;
                Ok(())
            },
            BufferOwner::Caller => Err((OwnershipError::BuffersNotWithKernel, payload)),
            BufferOwner::Released => Err((OwnershipError::HandleReleased, payload)),
        }
    }

    /// Record that the kernel freed the buffers on its side.
    ///
    /// Succeeds at most once, and only while the kernel holds the
    /// buffers, so a kernel-side free excludes a later reclaim and a
    /// second free alike.
    pub fn release(&mut self) -> (r: Result<(), OwnershipError>)
        requires
            old(self).wf(),
        ensures
            final(self).wf(),
            old(self).owner_spec() is Kernel ==> r is Ok && final(self).owner_spec() is Released,
            old(self).owner_spec() is Caller ==> r == Err::<(), OwnershipError>(
                OwnershipError::BuffersNotWithKernel,
            ) && *final(self) == *old(self),
            old(self).owner_spec() is Released ==> r == Err::<(), OwnershipError>(
                OwnershipError::HandleReleased,
            ) && *final(self) == *old(self),
    {
        match self.owner {
            BufferOwner::Kernel => {
                self.owner = BufferOwner::Released;
                Ok(())
            },
            BufferOwner::Caller => Err(OwnershipError::BuffersNotWithKernel),
            BufferOwner::Released => Err(OwnershipError::HandleReleased),
        }
    }

    /// Unwrap a caller-owned handle into its buffers without any kernel
    /// involvement.
    ///
    /// The handle is consumed, so this also surrenders it exactly once;
    /// a handle whose buffers are elsewhere reports the violation.
    pub fn into_payload(self) -> (r: Result<B, OwnershipError>)
        requires
            self.wf(),
        ensures
            self.owner_spec() is Caller ==> (r matches Ok(b) && Some(b)
                == self.payload_spec()),
            self.owner_spec() is Kernel ==> r == Err::<B, OwnershipError>(
                OwnershipError::BuffersNotHeld,
            ),
            self.owner_spec() is Released ==> r == Err::<B, OwnershipError>(
                OwnershipError::HandleReleased,
            ),
    {
        let MatrixHandle { owner, payload } = self;
        match owner {
            BufferOwner::Caller => {
                match payload {
                    Some(b) => Ok(b),
                    None => {
                        proof {
                            assert(false);
                        }
                        Err(OwnershipError::BuffersNotHeld)
                    },
                }
            },
            BufferOwner::Kernel => Err(OwnershipError::BuffersNotHeld),
            BufferOwner::Released => Err(OwnershipError::HandleReleased),
        }
    }
}

} // verus!
