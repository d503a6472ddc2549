//! Identifiers and small message types, with their byte and hex encodings.

use vstd::prelude::*;

verus! {

/// Constant-time equality of two byte strings: every byte pair is inspected,
/// whatever the position of the first difference.
pub fn constant_time_eq(left: &[u8], right: &[u8]) -> (r: bool)
    ensures
        r == (left@ == right@),
{
    if left.len() != right.len() {
        return false;
    }
    let n = left.len();
    let mut acc: u8 = 0;
    let mut i: usize = 0;
    while i < n
        invariant
            n == left@.len(),
            n == right@.len(),
            i <= n,
            (acc == 0) == (forall|j: int| 0 <= j < i ==> left@[j] == right@[j]),
        decreases n - i,
    {
        let x = left[i];
        let y = right[i];
        let next = acc | (x ^ y);
        assert((next == 0) == (acc == 0 && x == y)) by (bit_vector)
            requires
                next == acc | (x ^ y),
        ;
        acc = next;
        i += 1;
    }
    proof {
        if acc == 0 {
            assert(left@ =~= right@);
        }
    }
    acc == 0
}

/// Lower-case hexadecimal digits.
pub open spec fn hex_digits() -> Seq<char> {
    seq!['0', '1', '2', '3', '4', '5', '6', '7', '8', '9', 'a', 'b', 'c', 'd', 'e', 'f']
}

/// Lower-case hex encoding: two digits per byte, high nibble first.
pub open spec fn hex_spec(b: Seq<u8>) -> Seq<char> {
    Seq::new(
        2 * b.len(),
        |i: int|
            if i % 2 == 0 {
                hex_digits()[(b[i / 2] / 16) as int]
            } else {
                hex_digits()[(b[i / 2] % 16) as int]
            },
    )
}

/// Relies on `hex::encode`: lower-case digits, two per byte, high nibble first.
#[verifier::external_body]
fn hex_encode(b: &[u8]) -> (r: String)
    ensures
        r@ == hex_spec(b@),
{
    hex::encode(b)
}

/// A hexadecimal digit, in either case.
pub open spec fn is_hex_digit(c: char) -> bool {
    let u = c as u32;
    (48 <= u <= 57) || (97 <= u <= 102) || (65 <= u <= 70)
}

/// The value of a hexadecimal digit.
pub open spec fn hex_value(c: char) -> int {
    let u = c as u32;
    if 48 <= u <= 57 {
        u - 48
    } else if 97 <= u <= 102 {
        u - 87
    } else {
        u - 55
    }
}

/// A hex string: an even number of hexadecimal digits.
pub open spec fn is_hex(s: Seq<char>) -> bool {
    s.len() % 2 == 0 && forall|i: int| 0 <= i < s.len() ==> is_hex_digit(#[trigger] s[i])
}

/// The bytes that a hex string encodes, high nibble first.
pub open spec fn hex_decode_spec(s: Seq<char>) -> Seq<u8> {
    Seq::new(s.len() / 2, |i: int| (16 * hex_value(s[2 * i]) + hex_value(s[2 * i + 1])) as u8)
}

/// The error of `hex::decode`, carried opaquely.
#[verifier::external_type_specification]
#[verifier::external_body]
pub struct ExFromHexError(hex::FromHexError);

/// Relies on `hex::decode`: succeeds exactly on an even number of hexadecimal
/// digits of either case, and decodes each pair, high nibble first.
#[verifier::external_body]
fn hex_decode(s: &str) -> (r: Result<Vec<u8>, hex::FromHexError>)
    ensures
        (r is Ok) == is_hex(s@),
        r matches Ok(v) ==> v@ == hex_decode_spec(s@),
{
    hex::decode(s)
}

/// Decode a hex string.
pub fn decode_hex(s: &str) -> (r: Option<Vec<u8>>)
    ensures
        (r is Some) == is_hex(s@),
        r matches Some(v) ==> v@ == hex_decode_spec(s@),
{
    match hex_decode(s) {
        Ok(v) => Some(v),
        Err(_) => None,
    }
}

/// Encode bytes as lower-case hex.
pub fn encode_hex(b: &[u8]) -> (r: String)
    ensures
        r@ == hex_spec(b@),
{
    hex_encode(b)
}

/// A digit of the encoding has the value of its nibble.
proof fn lemma_hex_digit_value(n: int)
    requires
        0 <= n < 16,
    ensures
        is_hex_digit(hex_digits()[n]),
        hex_value(hex_digits()[n]) == n,
{
    assert(('0' as u32) == 48 && ('1' as u32) == 49 && ('2' as u32) == 50 && ('3' as u32) == 51
        && ('4' as u32) == 52 && ('5' as u32) == 53 && ('6' as u32) == 54 && ('7' as u32) == 55
        && ('8' as u32) == 56 && ('9' as u32) == 57 && ('a' as u32) == 97 && ('b' as u32) == 98
        && ('c' as u32) == 99 && ('d' as u32) == 100 && ('e' as u32) == 101 && ('f' as u32)
        == 102);
}

/// Decoding the hex encoding of bytes gives the bytes back.
pub proof fn lemma_hex_round_trip(b: Seq<u8>)
    ensures
        is_hex(hex_spec(b)),
        hex_decode_spec(hex_spec(b)) == b,
{
    let h = hex_spec(b);
    assert forall|i: int| 0 <= i < h.len() implies is_hex_digit(#[trigger] h[i]) by {
        let x = b[i / 2];
        if i % 2 == 0 {
            lemma_hex_digit_value((x / 16) as int);
        } else {
            lemma_hex_digit_value((x % 16) as int);
        }
    }
    assert(h.len() % 2 == 0);
    assert forall|i: int| 0 <= i < b.len() implies #[trigger] hex_decode_spec(h)[i] == b[i] by {
        let x = b[i];
        assert((2 * i) / 2 == i && (2 * i) % 2 == 0);
        assert((2 * i + 1) / 2 == i && (2 * i + 1) % 2 == 1);
        lemma_hex_digit_value((x / 16) as int);
        lemma_hex_digit_value((x % 16) as int);
        assert(16 * (x / 16) + x % 16 == x);
    }
    assert(hex_decode_spec(h) =~= b);
}

/// A task identifier: 32 opaque bytes.
#[derive(Clone, Copy, Debug, Hash)]
pub struct TaskId(pub [u8; 32]);

/// A report identifier: 16 opaque bytes.
#[derive(Clone, Copy, Debug, Hash)]
pub struct ReportId(pub [u8; 16]);

/// A fixed-size batch identifier: 32 bytes assigned by the Leader.
#[derive(Clone, Copy, Debug, Hash)]
pub struct BatchId(pub [u8; 32]);

impl View for TaskId {
    type V = Seq<u8>;

    open spec fn view(&self) -> Seq<u8> {
        self.0@
    }
}

impl View for ReportId {
    type V = Seq<u8>;

    open spec fn view(&self) -> Seq<u8> {
        self.0@
    }
}

impl View for BatchId {
    type V = Seq<u8>;

    open spec fn view(&self) -> Seq<u8> {
        self.0@
    }
}

impl TaskId {
    /// Equality of the two identifiers, comparing their bytes in constant time.
    pub fn same_as(&self, other: &Self) -> (r: bool)
        ensures
            r == (self@ == other@),
    {
        constant_time_eq(self.0.as_slice(), other.0.as_slice())
    }

    /// Hex encoding, as used in durable object names.
    pub fn to_hex(&self) -> (r: String)
        ensures
            r@ == hex_spec(self@),
    {
        hex_encode(self.0.as_slice())
    }
}

impl ReportId {
    /// Equality of the two identifiers, comparing their bytes in constant time.
    pub fn same_as(&self, other: &Self) -> (r: bool)
        ensures
            r == (self@ == other@),
    {
        constant_time_eq(self.0.as_slice(), other.0.as_slice())
    }

    /// Hex encoding.
    pub fn to_hex(&self) -> (r: String)
        ensures
            r@ == hex_spec(self@),
    {
        hex_encode(self.0.as_slice())
    }
}

impl BatchId {
    /// Equality of the two identifiers, comparing their bytes in constant time.
    pub fn same_as(&self, other: &Self) -> (r: bool)
        ensures
            r == (self@ == other@),
    {
        constant_time_eq(self.0.as_slice(), other.0.as_slice())
    }

    /// Hex encoding, as used in durable object names.
    pub fn to_hex(&self) -> (r: String)
        ensures
            r@ == hex_spec(self@),
    {
        hex_encode(self.0.as_slice())
    }
}

impl PartialEq for TaskId {
    fn eq(&self, other: &Self) -> (r: bool) {
        self.same_as(other)
    }
}

impl vstd::std_specs::cmp::PartialEqSpecImpl for TaskId {
    open spec fn obeys_eq_spec() -> bool {
        true
    }

    open spec fn eq_spec(&self, other: &TaskId) -> bool {
        self@ == other@
    }
}

impl Eq for TaskId {

}

impl PartialEq for ReportId {
    fn eq(&self, other: &Self) -> (r: bool) {
        self.same_as(other)
    }
}

impl vstd::std_specs::cmp::PartialEqSpecImpl for ReportId {
    open spec fn obeys_eq_spec() -> bool {
        true
    }

    open spec fn eq_spec(&self, other: &ReportId) -> bool {
        self@ == other@
    }
}

impl Eq for ReportId {

}

impl PartialEq for BatchId {
    fn eq(&self, other: &Self) -> (r: bool) {
        self.same_as(other)
    }
}

impl vstd::std_specs::cmp::PartialEqSpecImpl for BatchId {
    open spec fn obeys_eq_spec() -> bool {
        true
    }

    open spec fn eq_spec(&self, other: &BatchId) -> bool {
        self@ == other@
    }
}

impl Eq for BatchId {

}

/// Metadata of a report: its identifier and the time (seconds) at which it was
/// generated.
#[derive(Clone, Copy, Debug)]
pub struct ReportMetadata {
    pub id: ReportId,
    pub time: u64,
}

/// Per-report terminal outcome of an aggregation job.
#[derive(Clone, Copy, Debug, PartialEq, Eq, Structural, Hash)]
pub enum TransitionFailure {
    BatchCollected,
    ReportReplayed,
    ReportDropped,
    HpkeUnknownConfigId,
    HpkeDecryptError,
    VdafPrepError,
    BatchSaturated,
    TaskExpired,
    UnrecognizedMessage,
    ReportTooEarly,
}

} // verus!
