use vstd::prelude::*;

verus! {

/// An image file header that can say exactly which bytes it serializes
/// to. Writing those bytes to a file or socket is the caller's business.
pub trait ImageHeader: Sized {
    /// The header's serialized form.
    spec fn bytes_spec(&self) -> Seq<u8>;

    fn as_bytes(&self) -> (r: Vec<u8>)
        ensures
            r@ == self.bytes_spec(),
    ;
}

} // verus!
