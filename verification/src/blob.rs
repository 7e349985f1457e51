//! Byte buffers exchanged with the compiler.
use crate::impls::{BlobImpl, OwnedBlobImpl, StaticBlobImpl};
use crate::utils::str_from_utf8;
use vstd::prelude::*;
use vstd::string::StringSliceAdditionalSpecFns;
use vstd::utf8::{decode_utf8, encode_utf8, valid_utf8};

verus! {

/// Where the bytes of a [`Blob`] live.
#[derive(Clone, Copy, Debug, PartialEq, Eq, Structural)]
pub enum BlobOrigin {
    /// A byte range that lives as long as the process; it is never counted nor released.
    Static,
    /// A heap buffer that the host gave up to the blob.
    Owned,
    /// Bytes read out of a buffer that the compiler allocated.
    Native,
}

#[derive(Debug)]
enum Storage {
    Absent,
    Static(&'static [u8]),
    Owned(Vec<u8>),
    Native(Vec<u8>),
}

/// A byte buffer of static, owned or native origin, or the null blob that
/// stands for a diagnostic that was never produced.
///
/// Whatever the origin, a reader sees the same thing: a run of bytes.
#[derive(Debug)]
pub struct Blob {
    storage: Storage,
}

impl View for Blob {
    type V = Seq<u8>;

    /// The bytes of the blob; a null blob has none.
    closed spec fn view(&self) -> Seq<u8> {
        match self.storage {
            Storage::Absent => Seq::empty(),
            Storage::Static(bytes) => bytes@,
            Storage::Owned(bytes) => bytes@,
            Storage::Native(bytes) => bytes@,
        }
    }
}

impl Blob {
    /// The origin of the bytes, or `None` for the null blob.
    pub closed spec fn spec_origin(&self) -> Option<BlobOrigin> {
        match self.storage {
            Storage::Absent => None,
            Storage::Static(_) => Some(BlobOrigin::Static),
            Storage::Owned(_) => Some(BlobOrigin::Owned),
            Storage::Native(_) => Some(BlobOrigin::Native),
        }
    }

    /// Whether this is the null blob.
    pub open spec fn spec_is_null(&self) -> bool {
        self.spec_origin() is None
    }

    /// The null blob: what a call leaves behind when it has no diagnostic to give.
    pub fn null() -> (blob: Blob)
        ensures
            blob.spec_is_null(),
            blob@ == Seq::<u8>::empty(),
    {
        Blob { storage: Storage::Absent }
    }

    /// A blob for bytes that were read out of a buffer of the compiler.
    pub fn from_native(bytes: Vec<u8>) -> (blob: Blob)
        ensures
            blob@ == bytes@,
            blob.spec_origin() == Some(BlobOrigin::Native),
    {
        Blob { storage: Storage::Native(bytes) }
    }

    #[verifier::when_used_as_spec(spec_origin)]
    pub fn origin(&self) -> (origin: Option<BlobOrigin>)
        ensures
            origin == self.spec_origin(),
    {
        match &self.storage {
            Storage::Absent => None,
            Storage::Static(_) => Some(BlobOrigin::Static),
            Storage::Owned(_) => Some(BlobOrigin::Owned),
            Storage::Native(_) => Some(BlobOrigin::Native),
        }
    }

    #[verifier::when_used_as_spec(spec_is_null)]
    pub fn is_null(&self) -> (null: bool)
        ensures
            null == self.spec_is_null(),
    {
        match &self.storage {
            Storage::Absent => true,
            _ => false,
        }
    }

    /// The bytes of the blob. Reading the null blob is safe and yields nothing.
    pub fn as_slice(&self) -> (bytes: &[u8])
        ensures
            bytes@ == self@,
    {
        match &self.storage {
            Storage::Absent => &[],
            Storage::Static(bytes) => bytes,
            Storage::Owned(bytes) => bytes.as_slice(),
            Storage::Native(bytes) => bytes.as_slice(),
        }
    }

    /// The bytes of the blob as text. Decoding fails exactly when the bytes
    /// are not well-formed UTF-8; the failure is reported, never papered over.
    pub fn as_str(&self) -> (text: Result<&str, core::str::Utf8Error>)
        ensures
            text is Ok <==> valid_utf8(self@),
            text matches Ok(s) ==> s.spec_bytes() == self@ && s@ == decode_utf8(self@),
    {
        let text = str_from_utf8(self.as_slice());
        proof {
            if let Ok(s) = text {
                vstd::utf8::encode_utf8_decode_utf8(s@);
            }
        }
        text
    }
}

impl Blob {
    /// The object to hand to the compiler in place of this blob. Static bytes
    /// go out as they are, under an object that is never counted. Any other
    /// bytes go out in a buffer of their own, under an object that holds one
    /// reference: that of the compiler. The null blob goes out as no object.
    pub fn into_impl(self) -> (object: Option<BlobImpl>)
        ensures
            object is None <==> self.is_null(),
            object matches Some(BlobImpl::Static(fixed)) ==> {
                &&& self.origin() == Some(BlobOrigin::Static)
                &&& fixed@ == self@
            },
            object matches Some(BlobImpl::Owned(owned)) ==> {
                &&& self.origin() != Some(BlobOrigin::Static)
                &&& owned.spec_ref_count() == 1
                &&& owned.spec_buffer() == Some(self@)
            },
    {
        match self.storage {
            Storage::Absent => None,
            Storage::Static(bytes) => Some(BlobImpl::Static(StaticBlobImpl::new(bytes))),
            Storage::Owned(bytes) => Some(BlobImpl::Owned(OwnedBlobImpl::new(bytes))),
            Storage::Native(bytes) => Some(BlobImpl::Owned(OwnedBlobImpl::new(bytes))),
        }
    }
}

impl Clone for Blob {
    /// A duplicate shows the same bytes as the blob it was made from and, owning
    /// what it shows, stays readable after the first is gone.
    fn clone(&self) -> (copy: Self)
        ensures
            copy@ == self@,
            copy.spec_origin() == self.spec_origin(),
    {
        match &self.storage {
            Storage::Absent => Blob { storage: Storage::Absent },
            Storage::Static(bytes) => Blob { storage: Storage::Static(bytes) },
            Storage::Owned(bytes) => Blob { storage: Storage::Owned(bytes.clone()) },
            Storage::Native(bytes) => Blob { storage: Storage::Native(bytes.clone()) },
        }
    }
}

impl From<&'static [u8]> for Blob {
    fn from(value: &'static [u8]) -> (blob: Self)
        ensures
            blob@ == value@,
            blob.spec_origin() == Some(BlobOrigin::Static),
    {
        Blob { storage: Storage::Static(value) }
    }
}

impl vstd::std_specs::convert::FromSpecImpl<&'static [u8]> for Blob {
    open spec fn obeys_from_spec() -> bool {
        true
    }

    closed spec fn from_spec(value: &'static [u8]) -> Self {
        Blob { storage: Storage::Static(value) }
    }
}

impl From<&'static str> for Blob {
    fn from(value: &'static str) -> (blob: Self)
        ensures
            blob@ == encode_utf8(value@),
            blob.spec_origin() == Some(BlobOrigin::Static),
    {
        Blob { storage: Storage::Static(value.as_bytes()) }
    }
}

impl vstd::std_specs::convert::FromSpecImpl<&'static str> for Blob {
    open spec fn obeys_from_spec() -> bool {
        false
    }

    closed spec fn from_spec(value: &'static str) -> Self {
        Blob { storage: Storage::Absent }
    }
}

impl From<Vec<u8>> for Blob {
    fn from(value: Vec<u8>) -> (blob: Self)
        ensures
            blob@ == value@,
            blob.spec_origin() == Some(BlobOrigin::Owned),
    {
        Blob { storage: Storage::Owned(value) }
    }
}

impl vstd::std_specs::convert::FromSpecImpl<Vec<u8>> for Blob {
    open spec fn obeys_from_spec() -> bool {
        true
    }

    closed spec fn from_spec(value: Vec<u8>) -> Self {
        Blob { storage: Storage::Owned(value) }
    }
}

impl From<String> for Blob {
    fn from(value: String) -> (blob: Self)
        ensures
            blob@ == encode_utf8(value@),
            blob.spec_origin() == Some(BlobOrigin::Owned),
    {
        Blob { storage: Storage::Owned(vstd::slice::slice_to_vec(value.as_str().as_bytes())) }
    }
}

impl vstd::std_specs::convert::FromSpecImpl<String> for Blob {
    open spec fn obeys_from_spec() -> bool {
        false
    }

    closed spec fn from_spec(value: String) -> Self {
        Blob { storage: Storage::Absent }
    }
}

} // verus!
