use vstd::prelude::*;

verus! {

/// The identity of an account: the bytes of its textual address.
///
/// Two keys stand for the same account exactly when their bytes are equal.
pub struct AddressKey {
    bytes: Vec<u8>,
}

impl View for AddressKey {
    type V = Seq<u8>;

    closed spec fn view(&self) -> Seq<u8> {
        self.bytes@
    }
}

impl AddressKey {
    /// A key made of the given bytes.
    pub fn from_bytes(bytes: Vec<u8>) -> (key: AddressKey)
        ensures
            key@ == bytes@,
    {
        AddressKey { bytes }
    }

    /// The bytes of the key.
    pub fn as_bytes(&self) -> (bytes: &Vec<u8>)
        ensures
            bytes@ == self@,
    {
        &self.bytes
    }

    /// A second key with the same bytes.
    pub fn duplicate(&self) -> (copy: AddressKey)
        ensures
            copy@ == self@,
    {
        let mut bytes: Vec<u8> = Vec::new();
        let n = self.bytes.len();
        for i in 0..n
            invariant
                n == self.bytes@.len(),
                bytes@ == self.bytes@.take(i as int),
        {
            bytes.push(self.bytes[i]);
            assert(bytes@ =~= self.bytes@.take(i + 1));
        }
        assert(self.bytes@.take(n as int) =~= self.bytes@);
        AddressKey { bytes }
    }

    /// Whether both keys name the same account.
    pub fn same_as(&self, other: &AddressKey) -> (same: bool)
        ensures
            same == (self@ == other@),
    {
        let n = self.bytes.len();
        if n != other.bytes.len() {
            return false;
        }
        for i in 0..n
            invariant
                n == self.bytes@.len(),
                n == other.bytes@.len(),
                forall|j: int| 0 <= j < i ==> self.bytes@[j] == other.bytes@[j],
        {
            if self.bytes[i] != other.bytes[i] {
                return false;
            }
        }
        assert(self.bytes@ =~= other.bytes@);
        true
    }
}

} // verus!
