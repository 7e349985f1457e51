//! The state of the objects that the host implements for the compiler.
//!
//! The compiler reaches such an object through a table of functions, as it
//! reaches its own. Each function of the table finds the state below behind
//! the object and calls the method of the same purpose; what the method
//! answers is what the compiler is told.
use crate::blob::Blob;
use crate::desc::FileSystem;
use crate::utils::{str_from_utf8, Error, E_INVALIDARG, E_NOINTERFACE, S_OK};
use vstd::prelude::*;
use vstd::string::StringSliceAdditionalSpecFns;
use vstd::utf8::{decode_utf8, valid_utf8};

verus! {

/// The identifier of an interface.
#[derive(Clone, Copy, Debug)]
pub struct UUID {
    pub data1: u32,
    pub data2: u16,
    pub data3: u16,
    pub data4: [u8; 8],
}

impl UUID {
    /// Tells whether two identifiers are the same, field for field and byte for byte.
    pub fn same_as(&self, other: &UUID) -> (same: bool)
        ensures
            same == (*self == *other),
    {
        if self.data1 != other.data1 || self.data2 != other.data2 || self.data3 != other.data3 {
            return false;
        }
        let mut i: usize = 0;
        while i < 8
            invariant
                i <= 8,
                forall|j: int| 0 <= j < i ==> self.data4@[j] == other.data4@[j],
            decreases 8 - i,
        {
            if self.data4[i] != other.data4[i] {
                return false;
            }
            i += 1;
        }
        assert(self.data4 =~= other.data4);
        true
    }
}

/// The status that answers a query for the interface `asked` to an object
/// that offers the interfaces `offered`.
pub open spec fn query_status(asked: UUID, offered: Seq<UUID>) -> i32 {
    if offered.contains(asked) {
        S_OK
    } else {
        E_NOINTERFACE
    }
}

/// Answers a query for an interface: with success where the object offers
/// it, and with the status for a missing interface where it does not.
pub fn query_interface(asked: &UUID, offered: &[UUID]) -> (status: i32)
    ensures
        status == query_status(*asked, offered@),
        status >= 0 <==> offered@.contains(*asked),
{
    let mut i: usize = 0;
    while i < offered.len()
        invariant
            i <= offered@.len(),
            forall|j: int| 0 <= j < i ==> offered@[j] != *asked,
        decreases offered@.len() - i,
    {
        if offered[i].same_as(asked) {
            return S_OK;
        }
        i += 1;
    }
    E_NOINTERFACE
}

/// A blob over bytes that live as long as the process.
///
/// Such an object is not counted. Acquiring and releasing it change nothing,
/// and it is never freed.
#[derive(Debug)]
pub struct StaticBlobImpl {
    data: &'static [u8],
}

impl View for StaticBlobImpl {
    type V = Seq<u8>;

    closed spec fn view(&self) -> Seq<u8> {
        self.data@
    }
}

impl StaticBlobImpl {
    pub fn new(data: &'static [u8]) -> (blob: StaticBlobImpl)
        ensures
            blob@ == data@,
    {
        StaticBlobImpl { data }
    }

    /// Acquires the object, which changes nothing. The count reported is always one.
    pub fn add_ref(&self) -> (count: u32)
        ensures
            count == 1,
    {
        1
    }

    /// Releases the object, which changes nothing. The count reported is always one.
    pub fn release(&self) -> (count: u32)
        ensures
            count == 1,
    {
        1
    }

    /// The bytes, as the compiler reads them through the buffer pointer.
    pub fn buffer(&self) -> (bytes: &'static [u8])
        ensures
            bytes@ == self@,
    {
        self.data
    }

    pub fn get_buffer_size(&self) -> (size: usize)
        ensures
            size == self@.len(),
    {
        self.data.len()
    }
}

/// The count after one more reference is taken on an object that is held
/// `count` times.
///
/// A freed object stays freed, and a count that has reached the largest value
/// stays there for good: such an object is kept alive rather than freed while
/// references to it may remain.
pub open spec fn count_after_add_ref(count: u32) -> u32 {
    if count == 0 || count == u32::MAX {
        count
    } else {
        (count + 1) as u32
    }
}

/// The count after one reference is given up on an object that is held `count` times.
pub open spec fn count_after_release(count: u32) -> u32 {
    if count == 0 || count == u32::MAX {
        count
    } else {
        (count - 1) as u32
    }
}

/// What giving up a reference to an [`OwnedBlobImpl`] led to.
#[derive(Debug)]
pub struct Released {
    /// The references that remain.
    pub remaining: u32,
    /// The buffer, handed over for disposal by the release that took the last
    /// reference away, and by no other.
    pub buffer: Option<Vec<u8>>,
}

/// A blob that owns a heap buffer and counts the references to itself.
///
/// It starts with one reference, that of whoever made it. The buffer is
/// given up when the last reference is released: once, and never before.
#[derive(Debug)]
pub struct OwnedBlobImpl {
    data: Option<Vec<u8>>,
    ref_count: u32,
}

impl OwnedBlobImpl {
    #[verifier::type_invariant]
    spec fn counted(&self) -> bool {
        self.data is Some <==> self.ref_count > 0
    }

    /// The number of references held; zero once the buffer has been given up.
    pub closed spec fn spec_ref_count(&self) -> u32 {
        self.ref_count
    }

    /// The bytes of the buffer, for as long as the blob holds it.
    pub closed spec fn spec_buffer(&self) -> Option<Seq<u8>> {
        match self.data {
            Some(bytes) => Some(bytes@),
            None => None,
        }
    }

    /// Whether the blob still holds its buffer.
    pub open spec fn spec_is_alive(&self) -> bool {
        self.spec_ref_count() > 0
    }

    pub fn new(data: Vec<u8>) -> (blob: OwnedBlobImpl)
        ensures
            blob.spec_ref_count() == 1,
            blob.spec_buffer() == Some(data@),
    {
        OwnedBlobImpl { data: Some(data), ref_count: 1 }
    }

    #[verifier::when_used_as_spec(spec_ref_count)]
    pub fn ref_count(&self) -> (count: u32)
        ensures
            count == self.spec_ref_count(),
            count > 0 <==> self.spec_buffer() is Some,
    {
        proof {
            use_type_invariant(self);
        }
        self.ref_count
    }

    #[verifier::when_used_as_spec(spec_is_alive)]
    pub fn is_alive(&self) -> (alive: bool)
        ensures
            alive == self.spec_is_alive(),
            alive <==> self.spec_buffer() is Some,
    {
        proof {
            use_type_invariant(self);
        }
        self.ref_count > 0
    }

    /// Takes one more reference and reports the new count. The buffer is not touched.
    pub fn add_ref(&mut self) -> (count: u32)
        ensures
            count == count_after_add_ref(old(self).spec_ref_count()),
            final(self).spec_ref_count() == count,
            final(self).spec_buffer() == old(self).spec_buffer(),
    {
        proof {
            use_type_invariant(&*self);
        }
        if self.ref_count != 0 && self.ref_count != u32::MAX {
            self.ref_count = self.ref_count + 1;
        }
        self.ref_count
    }

    /// Gives one reference up. The release that takes the last reference away
    /// hands the buffer over; every other leaves it where it is.
    pub fn release(&mut self) -> (released: Released)
        ensures
            released.remaining == count_after_release(old(self).spec_ref_count()),
            final(self).spec_ref_count() == released.remaining,
            old(self).spec_ref_count() == 1 ==> {
                &&& released.buffer is Some
                &&& Some(released.buffer->0@) == old(self).spec_buffer()
                &&& final(self).spec_buffer() is None
            },
            old(self).spec_ref_count() != 1 ==> {
                &&& released.buffer is None
                &&& final(self).spec_buffer() == old(self).spec_buffer()
            },
    {
        proof {
            use_type_invariant(&*self);
        }
        if self.ref_count == 0 || self.ref_count == u32::MAX {
            Released { remaining: self.ref_count, buffer: None }
        } else if self.ref_count == 1 {
            let mut last = OwnedBlobImpl { data: None, ref_count: 0 };
            core::mem::swap(self, &mut last);
            Released { remaining: 0, buffer: last.data }
        } else {
            self.ref_count = self.ref_count - 1;
            Released { remaining: self.ref_count, buffer: None }
        }
    }

    /// The bytes, as the compiler reads them through the buffer pointer. A
    /// blob that has given its buffer up shows none.
    pub fn buffer(&self) -> (bytes: &[u8])
        ensures
            match self.spec_buffer() {
                Some(held) => bytes@ == held,
                None => bytes@ == Seq::<u8>::empty(),
            },
    {
        match &self.data {
            Some(held) => held.as_slice(),
            None => &[],
        }
    }

    pub fn get_buffer_size(&self) -> (size: usize)
        ensures
            match self.spec_buffer() {
                Some(held) => size == held.len(),
                None => size == 0,
            },
    {
        match &self.data {
            Some(held) => held.len(),
            None => 0,
        }
    }
}

/// The object that stands for a blob of the host when the compiler holds it.
#[derive(Debug)]
pub enum BlobImpl {
    Static(StaticBlobImpl),
    Owned(OwnedBlobImpl),
}

/// A duplicate outlives the holder it was made from: where a reference is
/// taken on a live object and one is then given up, the object is still live.
pub proof fn lemma_duplicate_outlives_first_holder(count: u32)
    requires
        count > 0,
    ensures
        count_after_release(count_after_add_ref(count)) > 0,
        count < u32::MAX - 1 ==> count_after_release(count_after_add_ref(count)) == count,
{
}

/// The buffer goes once: an object whose count has come down to zero stays
/// there whatever is done to it, so no later release can be the last one again.
pub proof fn lemma_freed_stays_freed()
    ensures
        count_after_add_ref(0) == 0,
        count_after_release(0) == 0,
        forall|count: u32| count_after_release(count) == 0 ==> count <= 1,
{
}

/// What the compiler is told when it asks the host for a file.
#[derive(Debug)]
pub struct LoadFileReply {
    /// The status of the call.
    pub status: i32,
    /// What is stored through the out-parameter; `None` leaves it null.
    pub blob: Option<Blob>,
}

/// The status that reports `error` to the compiler: the status it carries
/// where that is a failure, the status for a bad argument otherwise.
pub open spec fn failure_status(error: Error) -> i32 {
    if error.code() < 0 {
        error.code()
    } else {
        E_INVALIDARG
    }
}

/// The reply that hands on what the host's file system answered.
pub open spec fn reply_of(loaded: Result<Blob, Error>) -> LoadFileReply {
    match loaded {
        Ok(blob) => LoadFileReply { status: S_OK, blob: Some(blob) },
        Err(error) => LoadFileReply { status: failure_status(error), blob: None },
    }
}

/// Turns the answer of the host's file system into what the compiler is
/// told. A file that was loaded goes out with the status of success. A
/// failure goes out as a negative status with nothing stored.
pub fn load_file_reply(loaded: Result<Blob, Error>) -> (reply: LoadFileReply)
    ensures
        reply == reply_of(loaded),
        reply.status < 0 <==> reply.blob is None,
        reply.status < 0 <==> loaded is Err,
{
    match loaded {
        Ok(blob) => LoadFileReply { status: S_OK, blob: Some(blob) },
        Err(error) => {
            let code = error.code();
            if code < 0 {
                LoadFileReply { status: code, blob: None }
            } else {
                LoadFileReply { status: E_INVALIDARG, blob: None }
            }
        },
    }
}

/// A file system of the host, as the compiler sees it.
pub struct FileSystemImpl<F: FileSystem + ?Sized = dyn FileSystem> {
    file_system: Box<F>,
}

impl<F: FileSystem + ?Sized> FileSystemImpl<F> {
    /// The file system of the host that the bridge asks.
    pub closed spec fn spec_file_system(&self) -> Box<F> {
        self.file_system
    }

    /// Makes the bridge that asks `file_system` and nothing else.
    pub fn new(file_system: Box<F>) -> (bridge: FileSystemImpl<F>)
        ensures
            bridge.spec_file_system() == file_system,
    {
        FileSystemImpl { file_system }
    }

    /// Asks the file system that the bridge holds for the file at `path` and
    /// hands on what it answered. Whatever that is, the compiler gets a file
    /// exactly when the status is a success.
    pub fn load_file(&self, path: &str) -> (reply: LoadFileReply)
        ensures
            reply.status < 0 <==> reply.blob is None,
            reply.status >= 0 ==> reply.status == S_OK,
            exists|loaded: Result<Blob, Error>|
                call_ensures(F::load_file, (&*self.spec_file_system(), path), loaded) && reply
                    == reply_of(loaded),
    {
        let loaded = self.file_system.load_file(path);
        load_file_reply(loaded)
    }

    /// Asks the file system that the bridge holds for the file whose path the
    /// compiler gave as the bytes `path`, read as text. A path that is not
    /// text is refused as a bad argument, and the file system is not asked.
    pub fn load_file_raw(&self, path: &[u8]) -> (reply: LoadFileReply)
        ensures
            reply.status < 0 <==> reply.blob is None,
            reply.status >= 0 ==> reply.status == S_OK,
            !valid_utf8(path@) ==> reply == (LoadFileReply { status: E_INVALIDARG, blob: None }),
            valid_utf8(path@) ==> exists|text: &str, loaded: Result<Blob, Error>|
                text@ == decode_utf8(path@) && call_ensures(
                    F::load_file,
                    (&*self.spec_file_system(), text),
                    loaded,
                ) && reply == reply_of(loaded),
    {
        match str_from_utf8(path) {
            Ok(text) => {
                proof {
                    vstd::utf8::encode_utf8_decode_utf8(text@);
                }
                self.load_file(text)
            },
            Err(_) => LoadFileReply { status: E_INVALIDARG, blob: None },
        }
    }
}

} // verus!
