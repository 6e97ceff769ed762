use vstd::prelude::*;
use vstd::string::StringSliceAdditionalSpecFns;
use vstd::utf8::{
    decode_utf8, encode_utf8, encode_utf8_decode_utf8, encode_utf8_valid_utf8, valid_utf8,
};

verus! {

/// Size of the kernel's interface-name buffer, terminating NUL included.
pub const NAME_BUF_LEN: usize = 16;

/// Relies on libc::IFNAMSIZ: the size of the system's interface-name buffer,
/// which libc defines as 16 on Linux and the BSDs, 32 on Haiku and 44 on Cygwin.
#[verifier::external_body]
fn system_name_buf_len() -> (r: usize)
    ensures
        r >= NAME_BUF_LEN,
{
    libc::IFNAMSIZ
}

/// Why a string was refused as an interface name.
#[derive(Debug, Clone, Copy, PartialEq, Eq, Structural)]
pub enum InvalidInterfaceName {
    /// Longer than the system's interface-name limit.
    TooLong,
    /// The empty string.
    Empty,
    /// Holds a NUL, a `/` or an ASCII whitespace byte.
    InvalidChars,
}

impl InvalidInterfaceName {
    /// A sentence that says what was wrong with the name.
    pub fn message(&self) -> (r: &'static str)
        ensures
            *self == InvalidInterfaceName::TooLong ==> r@
                == "interface name longer than system max of 16 chars"@,
            *self == InvalidInterfaceName::Empty ==> r@ == "an empty interface name was provided"@,
            *self == InvalidInterfaceName::InvalidChars ==> r@
                == "interface name contained slash or space characters"@,
    {
        match self {
            InvalidInterfaceName::TooLong => "interface name longer than system max of 16 chars",
            InvalidInterfaceName::Empty => "an empty interface name was provided",
            InvalidInterfaceName::InvalidChars => "interface name contained slash or space characters",
        }
    }
}

/// The bytes that `u8::is_ascii_whitespace` accepts.
pub open spec fn is_ascii_whitespace_byte(b: u8) -> bool {
    b == 0x20u8 || b == 0x09u8 || b == 0x0Au8 || b == 0x0Cu8 || b == 0x0Du8
}

/// A byte that may not appear in an interface name.
pub open spec fn is_forbidden_name_byte(b: u8) -> bool {
    b == 0u8 || b == 0x2Fu8 || is_ascii_whitespace_byte(b)
}

/// The longest name accepted, in bytes: one less than the buffer, for the NUL.
pub open spec fn max_name_len() -> int {
    NAME_BUF_LEN - 1
}

/// The outcome of validating the bytes `b` as an interface name.
pub open spec fn name_validation(b: Seq<u8>) -> Result<Seq<u8>, InvalidInterfaceName> {
    if b.len() == 0 {
        Err(InvalidInterfaceName::Empty)
    } else if b.len() > max_name_len() {
        Err(InvalidInterfaceName::TooLong)
    } else if exists|i: int| 0 <= i < b.len() && is_forbidden_name_byte(#[trigger] b[i]) {
        Err(InvalidInterfaceName::InvalidChars)
    } else {
        Ok(b)
    }
}

/// The bytes `b` form a valid interface name.
pub open spec fn is_valid_name(b: Seq<u8>) -> bool {
    name_validation(b) == Ok::<Seq<u8>, InvalidInterfaceName>(b)
}

/// A validated interface name, held as a NUL-padded fixed buffer.
#[derive(Debug, Clone, Copy, Hash)]
pub struct InterfaceName {
    buf: [u8; 16],
    len: u8,
}

impl View for InterfaceName {
    type V = Seq<u8>;

    closed spec fn view(&self) -> Seq<u8> {
        self.buf@.take(self.len as int)
    }
}

impl InterfaceName {
    #[verifier::type_invariant]
    spec fn inv(&self) -> bool {
        &&& self.len <= max_name_len()
        &&& is_valid_name(self.buf@.take(self.len as int))
        &&& forall|i: int| self.len <= i < NAME_BUF_LEN ==> self.buf@[i] == 0u8
    }

    /// Validates `name` and copies its bytes into a NUL-padded buffer.
    pub fn from_str(name: &str) -> (r: Result<InterfaceName, InvalidInterfaceName>)
        ensures
            match r {
                Ok(n) => name_validation(name.spec_bytes()) == Ok::<
                    Seq<u8>,
                    InvalidInterfaceName,
                >(n@),
                Err(e) => name_validation(name.spec_bytes()) == Err::<Seq<u8>, InvalidInterfaceName>(
                    e,
                ),
            },
    {
        let bytes = name.as_bytes();
        let len = bytes.len();
        if len == 0 {
            return Err(InvalidInterfaceName::Empty);
        }
        // Leave room for the trailing NUL, both in the system's buffer and in ours.
        if len > system_name_buf_len() - 1 || len > NAME_BUF_LEN - 1 {
            return Err(InvalidInterfaceName::TooLong);
        }
        let mut buf = [0u8; 16];
        let mut i: usize = 0;
        while i < len
            invariant
                len == bytes@.len(),
                bytes@ == name.spec_bytes(),
                1 <= len <= max_name_len(),
                i <= len,
                buf@.len() == NAME_BUF_LEN,
                forall|j: int| 0 <= j < i ==> buf@[j] == bytes@[j],
                forall|j: int| i <= j < NAME_BUF_LEN ==> buf@[j] == 0u8,
                forall|j: int| 0 <= j < i ==> !is_forbidden_name_byte(#[trigger] bytes@[j]),
            decreases len - i,
        {
            let b = bytes[i];
            if b == 0 || b == 0x2F || b == 0x20 || b == 0x09 || b == 0x0A || b == 0x0C || b == 0x0D {
                return Err(InvalidInterfaceName::InvalidChars);
            }
            buf[i] = b;
            i = i + 1;
        }
        let n = InterfaceName { buf, len: len as u8 };
        assert(n@ =~= bytes@);
        Ok(n)
    }

    /// The name's bytes, without the NUL padding.
    pub fn as_bytes(&self) -> (r: Vec<u8>)
        ensures
            r@ == self@,
            is_valid_name(r@),
    {
        proof {
            use_type_invariant(self);
        }
        let mut v: Vec<u8> = Vec::new();
        let mut i: usize = 0;
        while i < self.len as usize
            invariant
                i <= self.len,
                self.len < NAME_BUF_LEN,
                self.buf@.len() == NAME_BUF_LEN,
                v@ =~= self.buf@.take(i as int),
            decreases self.len - i,
        {
            v.push(self.buf[i]);
            i = i + 1;
            assert(v@ =~= self.buf@.take(i as int));
        }
        v
    }

    /// The name as text; bytes that are not UTF-8 become replacement characters.
    pub fn as_str_lossy(&self) -> (r: String)
        ensures
            r@ == lossy_text_of(self@),
            valid_utf8(self@) ==> r@ == decode_utf8(self@),
    {
        let v = self.as_bytes();
        lossy_text(v.as_slice())
    }
}

impl PartialEq for InterfaceName {
    fn eq(&self, other: &InterfaceName) -> (r: bool) {
        proof {
            use_type_invariant(self);
            use_type_invariant(other);
        }
        if self.len != other.len {
            return false;
        }
        let mut i: usize = 0;
        while i < self.len as usize
            invariant
                self.len == other.len,
                i <= self.len,
                self.buf@.len() == NAME_BUF_LEN,
                other.buf@.len() == NAME_BUF_LEN,
                self.len <= max_name_len(),
                forall|j: int| 0 <= j < i ==> self.buf@[j] == other.buf@[j],
            decreases self.len - i,
        {
            if self.buf[i] != other.buf[i] {
                assert(self@[i as int] != other@[i as int]);
                return false;
            }
            i = i + 1;
        }
        assert(self@ =~= other@);
        true
    }
}

impl vstd::std_specs::cmp::PartialEqSpecImpl for InterfaceName {
    open spec fn obeys_eq_spec() -> bool {
        true
    }

    open spec fn eq_spec(&self, other: &InterfaceName) -> bool {
        self@ == other@
    }
}

impl Eq for InterfaceName {
}

/// Every string of 1 to 15 bytes with no NUL, `/` or ASCII whitespace is a
/// valid name, and decoding its bytes gives the string back.
pub proof fn lemma_name_round_trip(s: Seq<char>)
    requires
        1 <= encode_utf8(s).len() <= max_name_len(),
        forall|i: int|
            0 <= i < encode_utf8(s).len() ==> !is_forbidden_name_byte(#[trigger] encode_utf8(s)[i]),
    ensures
        name_validation(encode_utf8(s)) == Ok::<Seq<u8>, InvalidInterfaceName>(encode_utf8(s)),
        valid_utf8(encode_utf8(s)),
        decode_utf8(encode_utf8(s)) == s,
{
    encode_utf8_valid_utf8(s);
    encode_utf8_decode_utf8(s);
}

impl std::str::FromStr for InterfaceName {
    type Err = InvalidInterfaceName;

    fn from_str(name: &str) -> Result<InterfaceName, InvalidInterfaceName> {
        InterfaceName::from_str(name)
    }
}

/// What `String::from_utf8_lossy` makes of the bytes `b`.
pub uninterp spec fn lossy_text_of(b: Seq<u8>) -> Seq<char>;

/// Relies on String::from_utf8_lossy: valid UTF-8 is decoded as it stands,
/// and each invalid sequence becomes U+FFFD.
#[verifier::external_body]
fn lossy_text(b: &[u8]) -> (r: String)
    ensures
        r@ == lossy_text_of(b@),
        valid_utf8(b@) ==> r@ == decode_utf8(b@),
{
    String::from_utf8_lossy(b).into_owned()
}

} // verus!
