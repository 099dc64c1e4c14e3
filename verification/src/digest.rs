//! The digest type and its constructors.

use crate::error::Error;
use vstd::prelude::*;

verus! {

/// The number of bytes in a digest.
pub const MESSAGE_SIZE: usize = 32;

/// A hashed message: the input of a signature.
///
/// The bytes are meant to be the output of a cryptographically secure hash of
/// the data to be signed; signing anything else is not secure.
#[derive(Copy, Clone, Eq, Ord, Hash)]
pub struct Message([u8; 32]);

impl View for Message {
    type V = Seq<u8>;

    /// The bytes of the digest, first byte first.
    closed spec fn view(&self) -> Seq<u8> {
        self.0@
    }
}

impl Message {
    /// Builds a digest from an array of the right length. Nothing can fail.
    pub fn from_digest(digest: [u8; 32]) -> (m: Message)
        ensures
            m@ == digest@,
    {
        Message(digest)
    }

    /// Builds a digest from a slice, which must hold exactly [`MESSAGE_SIZE`]
    /// bytes.
    ///
    /// A slice of the right length gives the digest with those very bytes; any
    /// other length, the empty slice included, gives [`Error::InvalidMessage`].
    pub fn from_digest_slice(digest: &[u8]) -> (r: Result<Message, Error>)
        ensures
            digest@.len() == MESSAGE_SIZE ==> r.is_ok() && r.unwrap()@ == digest@,
            digest@.len() != MESSAGE_SIZE ==> r == Err::<Message, Error>(Error::InvalidMessage),
    {
        if digest.len() != MESSAGE_SIZE {
            return Err(Error::InvalidMessage);
        }
        let mut bytes: [u8; 32] = [0u8; 32];
        let mut i: usize = 0;
        while i < MESSAGE_SIZE
            invariant
                i <= MESSAGE_SIZE,
                digest@.len() == MESSAGE_SIZE,
                forall|j: int| 0 <= j < i ==> bytes@[j] == digest@[j],
            decreases MESSAGE_SIZE - i,
        {
            bytes[i] = digest[i];
            i += 1;
        }
        assert(bytes@ =~= digest@);
        Ok(Message::from_digest(bytes))
    }

    /// An older name of [`Message::from_digest_slice`], kept for callers that
    /// still use it. It checks and builds in the same way.
    pub fn from_slice(digest: &[u8]) -> (r: Result<Message, Error>)
        ensures
            digest@.len() == MESSAGE_SIZE ==> r.is_ok() && r.unwrap()@ == digest@,
            digest@.len() != MESSAGE_SIZE ==> r == Err::<Message, Error>(Error::InvalidMessage),
    {
        Message::from_digest_slice(digest)
    }

    /// The bytes of the digest.
    pub fn to_byte_array(&self) -> (bytes: [u8; 32])
        ensures
            bytes@ == self@,
    {
        self.0
    }
}

/// A digest holds exactly [`MESSAGE_SIZE`] bytes: no value of the type has a
/// view of another length.
pub proof fn lemma_digest_length(m: Message)
    ensures
        m@.len() == MESSAGE_SIZE,
{
}

/// Two digests are the same value exactly when they hold the same bytes.
pub proof fn lemma_same_bytes_same_digest(a: Message, b: Message)
    ensures
        (a == b) <==> (a@ == b@),
{
    if a@ == b@ {
        assert(a.0@ =~= b.0@);
        assert(a.0 =~= b.0);
    }
}

/// The two constructors agree: on the bytes of an array the checked
/// constructor succeeds, and with the very digest that the unchecked one builds.
///
/// `built` stands for what [`Message::from_digest`] returns for `digest`, and
/// `checked` for what [`Message::from_digest_slice`] returns for a slice of the
/// same bytes.
pub proof fn lemma_constructors_agree(
    digest: [u8; 32],
    built: Message,
    checked: Result<Message, Error>,
)
    requires
        built@ == digest@,
        digest@.len() == MESSAGE_SIZE ==> checked.is_ok() && checked.unwrap()@ == digest@,
    ensures
        checked == Ok::<Message, Error>(built),
{
    lemma_same_bytes_same_digest(built, checked.unwrap());
}

} // verus!
