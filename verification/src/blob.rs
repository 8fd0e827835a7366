//! A serialized value in memory, with the id under which it is stored.

use crate::buf::bytes_view;
use bytes::Bytes;
use vstd::prelude::*;

verus! {

/// A serialized blob in memory.
pub struct Blob<Id> {
    id: Id,
    data: Bytes,
}

impl<Id> Blob<Id> {
    /// The id of the blob.
    pub closed spec fn spec_id(&self) -> Id {
        self.id
    }

    /// The bytes of the blob.
    pub closed spec fn bytes(&self) -> Seq<u8> {
        bytes_view(self.data)
    }

    /// The blob with this id and these bytes.
    pub fn new(id: Id, data: Bytes) -> (blob: Self)
        ensures
            blob.spec_id() == id,
            blob.bytes() == bytes_view(data),
    {
        Self { id, data }
    }

    /// The number of bytes of the blob.
    pub fn len(&self) -> (n: usize)
        ensures
            n == self.bytes().len(),
    {
        self.data.len()
    }

    /// The id of the blob.
    pub fn id(&self) -> (id: &Id)
        ensures
            *id == self.spec_id(),
    {
        &self.id
    }

    /// The bytes of the blob.
    pub fn data(&self) -> (data: &Bytes)
        ensures
            bytes_view(*data) == self.bytes(),
    {
        &self.data
    }

    /// Gives up the id and hands out the bytes, as a blobstore takes them.
    pub fn into_data(self) -> (data: Bytes)
        ensures
            bytes_view(data) == self.bytes(),
    {
        self.data
    }
}

impl<Id: Clone> Clone for Blob<Id> {
    fn clone(&self) -> (blob: Self)
        ensures
            blob.bytes() == self.bytes(),
            cloned(self.spec_id(), blob.spec_id()),
    {
        Blob { id: self.id.clone(), data: self.data.clone() }
    }
}

/// A value that can be stored as a blob and read back from one.
pub trait BlobstoreValue: Sized + Send {
    /// The id under which such a value is stored.
    type Key;

    /// Serializes the value.
    fn into_blob(self) -> Blob<Self::Key>;

    /// Reads the value back, or says why the blob does not hold one.
    fn from_blob(blob: Blob<Self::Key>) -> Result<Self, anyhow::Error>;
}

} // verus!
