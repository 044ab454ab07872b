//! The allocation context: an arena that owns every byte buffer which the
//! structures of one certificate-building session refer to.

use vstd::prelude::*;

verus! {

/// `bumpalo_herd::Herd`: a set of arenas, one for each thread that allocates.
#[verifier::external_type_specification]
#[verifier::external_body]
pub struct ExHerd(bumpalo_herd::Herd);

/// Owner of the byte buffers of one certificate-building session.
///
/// Slices handed out by [`Context::with_reference`] live as long as the
/// context does; nothing is freed before the context is dropped.
pub struct Context {
    herd: bumpalo_herd::Herd,
}

/// `bumpalo_herd::Herd::new`: a fresh, empty arena.
#[verifier::external_body]
fn herd_new() -> bumpalo_herd::Herd {
    bumpalo_herd::Herd::new()
}

/// `bumpalo_herd::Member::alloc_slice_copy` on the calling thread's member of
/// the herd: the returned slice lives in the arena and holds a copy of `data`.
#[verifier::external_body]
fn herd_alloc_slice_copy<'a>(herd: &'a bumpalo_herd::Herd, data: &[u8]) -> (stored: &'a [u8])
    ensures
        stored@ == data@,
{
    herd.get().alloc_slice_copy(data)
}

impl Context {
    /// An empty context.
    pub fn new() -> Self {
        Context { herd: herd_new() }
    }

    /// Copies `data` into the context and returns a view of the copy that is
    /// valid for as long as the context is.
    pub fn with_reference<'a>(&'a self, data: &[u8]) -> (stored: &'a [u8])
        ensures
            stored@ == data@,
    {
        herd_alloc_slice_copy(&self.herd, data)
    }
}

/// Values that can be moved into a [`Context`].
pub trait Alloc {
    /// The bytes that `alloc_into` stores.
    spec fn alloc_bytes(&self) -> Seq<u8>;

    /// Copies the value's bytes into `context`.
    fn alloc_into<'a>(self, context: &'a Context) -> (stored: &'a [u8])
        ensures
            stored@ == self.alloc_bytes(),
    ;
}

impl Alloc for &[u8] {
    open spec fn alloc_bytes(&self) -> Seq<u8> {
        self@
    }

    fn alloc_into<'a>(self, context: &'a Context) -> (stored: &'a [u8]) {
        context.with_reference(self)
    }
}

impl Alloc for Vec<u8> {
    open spec fn alloc_bytes(&self) -> Seq<u8> {
        self@
    }

    fn alloc_into<'a>(self, context: &'a Context) -> (stored: &'a [u8]) {
        context.with_reference(self.as_slice())
    }
}

} // verus!
