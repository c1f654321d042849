use vstd::prelude::*;

use crate::models::Person;
use crate::serializer::Serializer;

verus! {

/// Why a storage operation failed.
#[derive(Clone, Copy, Debug, PartialEq, Eq, Structural)]
pub enum StorageError {
    /// Nothing has been saved yet.
    Empty,
    /// The chosen format cannot encode this value.
    EncodeFailed,
    /// The stored bytes do not decode under the chosen format.
    DecodeFailed,
}

/// A single in-memory slot holding at most one person, kept as the byte
/// image of a chosen serialization format.  Saving overwrites the slot;
/// loading decodes the bytes back into exactly the person last saved.
pub struct Storage<S: Serializer> {
    serializer: S,
    data: Option<Vec<u8>>,
}

impl<S: Serializer> View for Storage<S> {
    type V = Option<Seq<u8>>;

    closed spec fn view(&self) -> Option<Seq<u8>> {
        match self.data {
            Some(ref b) => Some(b@),
            None => None,
        }
    }
}

impl<S: Serializer> Storage<S> {
    /// An empty slot for the given format.
    pub fn new(serializer: S) -> (r: Self)
        ensures
            r@ is None,
    {
        Storage { serializer, data: None }
    }

    /// Encode `value` and keep its byte image, overwriting any earlier
    /// one.  Fails, leaving the slot as it was, exactly when the format
    /// cannot encode the value.
    pub fn save(&mut self, value: &Person) -> (r: Result<(), StorageError>)
        ensures
            r is Ok <==> S::encodable(value.name@, value.age),
            r is Ok ==> final(self)@ == Some(S::spec_bytes(value.name@, value.age)),
            r is Err ==> final(self)@ == old(self)@,
    {
        match self.serializer.to_bytes(value) {
            Ok(bytes) => {
                self.data = Some(bytes);
                Ok(())
            },
            Err(e) => Err(e),
        }
    }

    /// Decode the stored byte image.  On an empty slot this fails; on a
    /// slot holding the image of a person, that person comes back.
    pub fn load(&self) -> (r: Result<Person, StorageError>)
        ensures
            self@ is None ==> r == Result::<Person, StorageError>::Err(StorageError::Empty),
            forall|n: Seq<char>, a: u32|
                S::encodable(n, a) && self@ == Some(#[trigger] S::spec_bytes(n, a)) ==> (r
                    matches Ok(p) && p.name@ == n && p.age == a),
    {
        match self.data {
            Some(ref bytes) => self.serializer.from_bytes(bytes.as_slice()),
            None => Err(StorageError::Empty),
        }
    }

    /// Whether anything has been saved.
    pub fn has_data(&self) -> (r: bool)
        ensures
            r == (self@ is Some),
    {
        self.data.is_some()
    }
}

} // verus!
