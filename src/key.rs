use vstd::prelude::*;

verus! {

/// Length in bytes of a key.
pub const KEY_LEN: usize = 32;

/// The bytes `k` are all zero: the sentinel that asks an interface to clear a key.
pub open spec fn is_zero_key(k: Seq<u8>) -> bool {
    forall|i: int| 0 <= i < k.len() ==> k[i] == 0u8
}

/// The bytes of the all-zero key.
pub open spec fn zero_key() -> Seq<u8> {
    Seq::new(KEY_LEN as nat, |i: int| 0u8)
}

/// An opaque 32-byte key. The all-zero value is reserved as the sentinel
/// that asks an interface to clear a key.
#[derive(Clone, Copy, Debug, Hash)]
pub struct Key(pub [u8; 32]);

impl View for Key {
    type V = Seq<u8>;

    open spec fn view(&self) -> Seq<u8> {
        self.0@
    }
}

impl Key {
    /// The key made of the given bytes.
    pub fn from_bytes(bytes: [u8; 32]) -> (r: Key)
        ensures
            r@ == bytes@,
    {
        Key(bytes)
    }

    /// The key's bytes.
    pub fn as_bytes(&self) -> (r: [u8; 32])
        ensures
            r@ == self@,
    {
        self.0
    }

    /// The all-zero sentinel key.
    pub fn zero() -> (r: Key)
        ensures
            r@ == zero_key(),
    {
        let r = Key([0u8; 32]);
        assert(r@ =~= zero_key());
        r
    }

    /// Whether this is the all-zero sentinel.
    pub fn is_zero(&self) -> (r: bool)
        ensures
            r == is_zero_key(self@),
    {
        let mut i: usize = 0;
        while i < KEY_LEN
            invariant
                i <= KEY_LEN,
                self@.len() == KEY_LEN,
                forall|j: int| 0 <= j < i ==> self@[j] == 0u8,
            decreases KEY_LEN - i,
        {
            if self.0[i] != 0 {
                return false;
            }
            i = i + 1;
        }
        true
    }
}

impl PartialEq for Key {
    fn eq(&self, other: &Key) -> (r: bool) {
        let mut i: usize = 0;
        while i < KEY_LEN
            invariant
                i <= KEY_LEN,
                self@.len() == KEY_LEN,
                other@.len() == KEY_LEN,
                forall|j: int| 0 <= j < i ==> self@[j] == other@[j],
            decreases KEY_LEN - i,
        {
            if self.0[i] != other.0[i] {
                assert(self@[i as int] != other@[i as int]);
                return false;
            }
            i = i + 1;
        }
        assert(self@ =~= other@);
        true
    }
}

impl vstd::std_specs::cmp::PartialEqSpecImpl for Key {
    open spec fn obeys_eq_spec() -> bool {
        true
    }

    open spec fn eq_spec(&self, other: &Key) -> bool {
        self@ == other@
    }
}

impl Eq for Key {
}

/// A public key and the private key it belongs to.
#[derive(Clone, Copy, Debug, Hash)]
pub struct KeyPair {
    pub public: Key,
    pub private: Key,
}

impl KeyPair {
    /// Pairs a private key with its public key.
    pub fn from_keys(public: Key, private: Key) -> (r: KeyPair)
        ensures
            r.public@ == public@,
            r.private@ == private@,
    {
        KeyPair { public, private }
    }
}

} // verus!
