use vstd::prelude::*;

verus! {

/// A 32-byte account address: the identity of a participant, of a token
/// account, of a program or of an escrow record.
#[derive(Clone, Copy, Debug, Eq)]
pub struct Key {
    pub bytes: [u8; 32],
}

impl View for Key {
    type V = Seq<u8>;

    open spec fn view(&self) -> Seq<u8> {
        self.bytes@
    }
}

impl PartialEq for Key {
    fn eq(&self, other: &Key) -> (r: bool) {
        let mut i: usize = 0;
        while i < 32
            invariant
                i <= 32,
                forall|j: int| 0 <= j < i ==> self.bytes[j] == other.bytes[j],
            decreases 32 - i,
        {
            if self.bytes[i] != other.bytes[i] {
                return false;
            }
            i += 1;
        }
        assert(self.bytes =~= other.bytes);
        true
    }
}

impl vstd::std_specs::cmp::PartialEqSpecImpl for Key {
    open spec fn obeys_eq_spec() -> bool {
        true
    }

    open spec fn eq_spec(&self, other: &Key) -> bool {
        *self == *other
    }
}

/// The address under which this program is deployed.
pub const ID: [u8; 32] = [
    241, 115, 200, 80, 201, 85, 176, 126, 209, 78, 191, 222, 0, 103, 176, 90,
    99, 175, 97, 8, 141, 2, 141, 33, 161, 180, 145, 124, 75, 211, 165, 250,
];

/// The program address as a key.
pub fn id() -> (k: Key)
    ensures
        k.bytes == ID,
{
    Key { bytes: ID }
}

impl Key {
    /// The key's bytes as a vector.
    pub fn to_vec(&self) -> (v: Vec<u8>)
        ensures
            v@ == self@,
    {
        let mut v: Vec<u8> = Vec::new();
        let mut i: usize = 0;
        while i < 32
            invariant
                i <= 32,
                v@ == self@.subrange(0, i as int),
            decreases 32 - i,
        {
            v.push(self.bytes[i]);
            i += 1;
        }
        v
    }
}

} // verus!
