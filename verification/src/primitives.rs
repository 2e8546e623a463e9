//! Identifiers of actors and of messages: 256 bits each.

use vstd::prelude::*;

verus! {

/// Byte by byte comparison of two identifiers.
fn same_bytes(a: &[u8; 32], b: &[u8; 32]) -> (r: bool)
    ensures
        r == (*a == *b),
{
    let mut i: usize = 0;
    while i < 32
        invariant
            i <= 32,
            forall|j: int| 0 <= j < i ==> a@[j] == b@[j],
        decreases 32 - i,
    {
        if a[i] != b[i] {
            assert(a@[i as int] != b@[i as int]);
            return false;
        }
        i += 1;
    }
    assert(*a =~= *b);
    true
}

/// The identifier of a user or of a program.
#[derive(Clone, Copy, Debug, Eq, Hash)]
pub struct ActorId {
    bytes: [u8; 32],
}

impl View for ActorId {
    type V = Seq<u8>;

    closed spec fn view(&self) -> Seq<u8> {
        self.bytes@
    }
}

impl ActorId {
    /// The identifier made of the given bytes.
    pub fn new(bytes: [u8; 32]) -> (id: ActorId)
        ensures
            id@ == bytes@,
    {
        ActorId { bytes }
    }

    /// The bytes of the identifier.
    pub fn into_bytes(self) -> (bytes: [u8; 32])
        ensures
            bytes@ == self@,
    {
        self.bytes
    }

    /// An identifier has 32 bytes, and two identifiers with the same bytes
    /// are the same identifier.
    pub proof fn lemma_view(a: ActorId, b: ActorId)
        ensures
            a@.len() == 32,
            a@ == b@ <==> a == b,
    {
        if a@ == b@ {
            assert(a.bytes =~= b.bytes);
        }
    }
}

impl PartialEq for ActorId {
    fn eq(&self, other: &ActorId) -> (r: bool) {
        same_bytes(&self.bytes, &other.bytes)
    }
}

impl vstd::std_specs::cmp::PartialEqSpecImpl for ActorId {
    open spec fn obeys_eq_spec() -> bool {
        true
    }

    open spec fn eq_spec(&self, other: &ActorId) -> bool {
        *self == *other
    }
}

/// The identifier of a message.
#[derive(Clone, Copy, Debug, Eq, Hash)]
pub struct MessageId {
    bytes: [u8; 32],
}

impl View for MessageId {
    type V = Seq<u8>;

    closed spec fn view(&self) -> Seq<u8> {
        self.bytes@
    }
}

impl MessageId {
    /// The identifier made of the given bytes.
    pub fn new(bytes: [u8; 32]) -> (id: MessageId)
        ensures
            id@ == bytes@,
    {
        MessageId { bytes }
    }

    /// The bytes of the identifier.
    pub fn into_bytes(self) -> (bytes: [u8; 32])
        ensures
            bytes@ == self@,
    {
        self.bytes
    }

    /// An identifier has 32 bytes, and two identifiers with the same bytes
    /// are the same identifier.
    pub proof fn lemma_view(a: MessageId, b: MessageId)
        ensures
            a@.len() == 32,
            a@ == b@ <==> a == b,
    {
        if a@ == b@ {
            assert(a.bytes =~= b.bytes);
        }
    }
}

impl PartialEq for MessageId {
    fn eq(&self, other: &MessageId) -> (r: bool) {
        same_bytes(&self.bytes, &other.bytes)
    }
}

impl vstd::std_specs::cmp::PartialEqSpecImpl for MessageId {
    open spec fn obeys_eq_spec() -> bool {
        true
    }

    open spec fn eq_spec(&self, other: &MessageId) -> bool {
        *self == *other
    }
}

} // verus!
