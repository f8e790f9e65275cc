//! The 32-byte block hash and its 64-character hexadecimal textual form.
use vstd::prelude::*;

verus! {

/// Byte length of a block hash.
pub const HASH_BYTES: usize = 32;

/// Length of the textual (hexadecimal) form of a block hash.
pub const HASH_HEX_LEN: usize = 64;

/// Value of an ASCII hexadecimal digit, or 255 for any other byte.
pub open spec fn hex_digit_value(c: u8) -> u8 {
    if '0' as u8 <= c && c <= '9' as u8 {
        (c - '0' as u8) as u8
    } else if 'a' as u8 <= c && c <= 'f' as u8 {
        ((c - 'a' as u8) + 10) as u8
    } else if 'A' as u8 <= c && c <= 'F' as u8 {
        ((c - 'A' as u8) + 10) as u8
    } else {
        255
    }
}

/// Whether a byte is an ASCII hexadecimal digit.
pub open spec fn is_hex_digit(c: u8) -> bool {
    hex_digit_value(c) < 16
}

/// Whether every byte of `s` is an ASCII hexadecimal digit.
pub open spec fn is_hex_seq(s: Seq<u8>) -> bool {
    forall|i: int| 0 <= i < s.len() ==> is_hex_digit(s[i])
}

/// The byte encoded by a pair of hexadecimal digits.
pub open spec fn hex_pair_value(hi: u8, lo: u8) -> u8 {
    (hex_digit_value(hi) as int * 16 + hex_digit_value(lo) as int) as u8
}

/// The byte sequence encoded by a hexadecimal digit sequence, pairwise.
pub open spec fn decoded_hex(s: Seq<u8>) -> Seq<u8> {
    Seq::new((s.len() / 2) as nat, |i: int| hex_pair_value(s[2 * i], s[2 * i + 1]))
}

/// The lowercase ASCII hexadecimal digit for a value below 16.
pub open spec fn lower_hex_digit(v: u8) -> u8 {
    if v < 10 {
        (v + '0' as u8) as u8
    } else {
        ((v - 10) + 'a' as u8) as u8
    }
}

/// The lowercase hexadecimal rendering of a byte sequence, two digits per byte.
pub open spec fn encoded_hex(b: Seq<u8>) -> Seq<u8> {
    Seq::new((b.len() * 2) as nat, |i: int|
        if i % 2 == 0 {
            lower_hex_digit(b[i / 2] / 16)
        } else {
            lower_hex_digit(b[i / 2] % 16)
        }
    )
}

/// ASCII lowercasing of one byte.
pub open spec fn ascii_lower(c: u8) -> u8 {
    if 'A' as u8 <= c && c <= 'Z' as u8 {
        (c + 32) as u8
    } else {
        c
    }
}

/// ASCII lowercasing of a byte sequence.
pub open spec fn ascii_lower_seq(s: Seq<u8>) -> Seq<u8> {
    s.map_values(|c: u8| ascii_lower(c))
}

/// A 32-byte hash, the identity of a block (and of other hashed objects)
/// on the ledger. Its textual form is exactly 64 hexadecimal characters.
#[derive(Debug)]
pub struct Hash32 {
    bytes: Vec<u8>,
}

impl View for Hash32 {
    type V = Seq<u8>;

    closed spec fn view(&self) -> Seq<u8> {
        self.bytes@
    }
}

impl Hash32 {
    #[verifier::type_invariant]
    spec fn type_inv(self) -> bool {
        self.bytes@.len() == 32
    }

    /// The hash as its 32 raw bytes.
    pub fn as_bytes(&self) -> (r: &Vec<u8>)
        ensures
            r@ == self@,
            r@.len() == 32,
    {
        proof {
            use_type_invariant(self);
        }
        &self.bytes
    }

    /// An owned copy of the hash bytes.
    pub fn to_bytes_vec(&self) -> (r: Vec<u8>)
        ensures
            r@ == self@,
            r@.len() == 32,
    {
        proof {
            use_type_invariant(self);
        }
        copy_bytes(&self.bytes)
    }

    /// Builds a hash from exactly 32 raw bytes.
    pub fn from_bytes(bytes: Vec<u8>) -> (r: Option<Hash32>)
        ensures
            match r {
                Some(h) => bytes@.len() == 32 && h@ == bytes@,
                None => bytes@.len() != 32,
            },
    {
        if bytes.len() == 32 {
            Some(Hash32 { bytes })
        } else {
            None
        }
    }

    /// Decodes a hash from its 64-character hexadecimal textual form,
    /// upper- or lowercase; fails on any other input.
    pub fn from_hex(s: &Vec<u8>) -> (r: Option<Hash32>)
        ensures
            match r {
                Some(h) => s@.len() == 64 && is_hex_seq(s@) && h@ == decoded_hex(s@),
                None => !(s@.len() == 64 && is_hex_seq(s@)),
            },
    {
        match hex_decode_hash(s) {
            Some(bytes) => Some(Hash32 { bytes }),
            None => None,
        }
    }

    /// Renders the hash as its 64-character lowercase hexadecimal form.
    pub fn to_hex(&self) -> (r: Vec<u8>)
        ensures
            r@ == encoded_hex(self@),
            r@.len() == 64,
    {
        proof {
            use_type_invariant(self);
        }
        let mut out: Vec<u8> = Vec::new();
        let mut i: usize = 0;
        while i < self.bytes.len()
            invariant
                self.bytes@.len() == 32,
                i <= 32,
                out@.len() == 2 * i,
                forall|k: int| 0 <= k < out@.len() ==> out@[k] == encoded_hex(self@)[k],
            decreases 32 - i,
        {
            let b = self.bytes[i];
            out.push(lower_digit(b / 16));
            out.push(lower_digit(b % 16));
            i = i + 1;
        }
        proof {
            assert(out@ =~= encoded_hex(self@));
        }
        out
    }
}

impl Clone for Hash32 {
    fn clone(&self) -> (r: Self) {
        proof {
            use_type_invariant(self);
        }
        let mut bytes: Vec<u8> = Vec::new();
        let mut i: usize = 0;
        while i < self.bytes.len()
            invariant
                self.bytes@.len() == 32,
                i <= 32,
                bytes@ =~= self.bytes@.subrange(0, i as int),
            decreases 32 - i,
        {
            bytes.push(self.bytes[i]);
            i = i + 1;
        }
        proof {
            assert(bytes@ =~= self.bytes@);
        }
        Hash32 { bytes }
    }
}

impl PartialEq for Hash32 {
    fn eq(&self, other: &Hash32) -> (r: bool) {
        proof {
            use_type_invariant(self);
            use_type_invariant(other);
        }
        let mut i: usize = 0;
        let mut same = true;
        while i < self.bytes.len()
            invariant
                self.bytes@.len() == 32,
                other.bytes@.len() == 32,
                i <= 32,
                same == (forall|k: int| 0 <= k < i ==> self.bytes@[k] == other.bytes@[k]),
            decreases 32 - i,
        {
            if self.bytes[i] != other.bytes[i] {
                same = false;
            }
            i = i + 1;
        }
        proof {
            if same {
                assert(self.bytes@ =~= other.bytes@);
            }
        }
        same
    }
}

impl Eq for Hash32 {}

impl vstd::std_specs::cmp::PartialEqSpecImpl for Hash32 {
    open spec fn obeys_eq_spec() -> bool {
        true
    }

    open spec fn eq_spec(&self, other: &Hash32) -> bool {
        self@ == other@
    }
}

/// An owned copy of a byte vector.
pub fn copy_bytes(v: &Vec<u8>) -> (r: Vec<u8>)
    ensures
        r@ == v@,
{
    let mut out: Vec<u8> = Vec::new();
    let mut i: usize = 0;
    while i < v.len()
        invariant
            i <= v@.len(),
            out@ =~= v@.subrange(0, i as int),
        decreases v@.len() - i,
    {
        out.push(v[i]);
        i = i + 1;
    }
    proof {
        assert(out@ =~= v@);
    }
    out
}

/// Relies on hex::decode_to_slice of the hex crate: into a 32-byte buffer it
/// succeeds exactly on a 64-byte input made of hexadecimal digits, writing
/// byte i as 16 * value(s[2i]) + value(s[2i+1]), digits upper- or lowercase.
#[verifier::external_body]
fn hex_decode_hash(s: &Vec<u8>) -> (r: Option<Vec<u8>>)
    ensures
        match r {
            Some(b) => s@.len() == 64 && is_hex_seq(s@) && b@ == decoded_hex(s@),
            None => !(s@.len() == 64 && is_hex_seq(s@)),
        },
{
    let mut out = [0u8; 32];
    match hex::decode_to_slice(s.as_slice(), &mut out) {
        Ok(()) => Some(out.to_vec()),
        Err(_) => None,
    }
}

/// The lowercase hexadecimal digit for a value below 16.
fn lower_digit(v: u8) -> (r: u8)
    requires
        v < 16,
    ensures
        r == lower_hex_digit(v),
{
    if v < 10 {
        v + '0' as u8
    } else {
        (v - 10) + 'a' as u8
    }
}

/// Lowercasing a hexadecimal digit commutes with reading its value: rendering
/// the value of a digit in lowercase gives exactly the lowercased digit.
proof fn lemma_digit_round_trip(c: u8)
    requires
        is_hex_digit(c),
    ensures
        lower_hex_digit(hex_digit_value(c)) == ascii_lower(c),
{
}

/// Decoding a valid even-length hexadecimal string and re-encoding the bytes
/// yields the original string lowercased: the textual form round-trips up to
/// letter case.
pub proof fn lemma_hex_round_trip(s: Seq<u8>)
    requires
        s.len() % 2 == 0,
        is_hex_seq(s),
    ensures
        encoded_hex(decoded_hex(s)) == ascii_lower_seq(s),
{
    let d = decoded_hex(s);
    let e = encoded_hex(d);
    let l = ascii_lower_seq(s);
    assert(e.len() == l.len());
    assert forall|i: int| 0 <= i < e.len() implies e[i] == l[i] by {
        let j = i / 2;
        let hi = hex_digit_value(s[2 * j]);
        let lo = hex_digit_value(s[2 * j + 1]);
        assert(is_hex_digit(s[2 * j]));
        assert(is_hex_digit(s[2 * j + 1]));
        assert(d[j] == (hi as int * 16 + lo as int) as u8);
        assert((hi as int * 16 + lo as int) / 16 == hi as int && (hi as int * 16
            + lo as int) % 16 == lo as int) by (nonlinear_arith)
            requires
                hi < 16,
                lo < 16,
        ;
        assert(d[j] / 16 == hi && d[j] % 16 == lo);
        if i % 2 == 0 {
            assert(i == 2 * j);
            lemma_digit_round_trip(s[2 * j]);
        } else {
            assert(i == 2 * j + 1);
            lemma_digit_round_trip(s[2 * j + 1]);
        }
    }
    assert(e =~= l);
}

} // verus!
