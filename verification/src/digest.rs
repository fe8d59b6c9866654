//! 32-byte content digests (block hashes, transaction hashes) and their
//! hexadecimal wire encoding.

use vstd::prelude::*;

verus! {

/// Left-pads a byte string to the 32-byte digest width with zero bytes.
pub open spec fn zero_pad32(s: Seq<u8>) -> Seq<u8> {
    Seq::new((32 - s.len()) as nat, |i: int| 0u8) + s
}

/// Numeric value of one hexadecimal digit character, if it is one.
pub open spec fn hex_val(c: char) -> Option<u8> {
    if c == '0' { Some(0u8) }
    else if c == '1' { Some(1u8) }
    else if c == '2' { Some(2u8) }
    else if c == '3' { Some(3u8) }
    else if c == '4' { Some(4u8) }
    else if c == '5' { Some(5u8) }
    else if c == '6' { Some(6u8) }
    else if c == '7' { Some(7u8) }
    else if c == '8' { Some(8u8) }
    else if c == '9' { Some(9u8) }
    else if c == 'a' || c == 'A' { Some(10u8) }
    else if c == 'b' || c == 'B' { Some(11u8) }
    else if c == 'c' || c == 'C' { Some(12u8) }
    else if c == 'd' || c == 'D' { Some(13u8) }
    else if c == 'e' || c == 'E' { Some(14u8) }
    else if c == 'f' || c == 'F' { Some(15u8) }
    else { None }
}

pub open spec fn is_hex_digit(c: char) -> bool {
    hex_val(c) is Some
}

/// The value of a hex digit, with non-digits mapped to zero.
pub open spec fn hex_val_or_zero(c: char) -> u8 {
    match hex_val(c) {
        Some(d) => d,
        None => 0u8,
    }
}

/// Lowercase hex digit character for a nibble value.
pub open spec fn nibble_char(n: u8) -> char {
    if n == 0 { '0' }
    else if n == 1 { '1' }
    else if n == 2 { '2' }
    else if n == 3 { '3' }
    else if n == 4 { '4' }
    else if n == 5 { '5' }
    else if n == 6 { '6' }
    else if n == 7 { '7' }
    else if n == 8 { '8' }
    else if n == 9 { '9' }
    else if n == 10 { 'a' }
    else if n == 11 { 'b' }
    else if n == 12 { 'c' }
    else if n == 13 { 'd' }
    else if n == 14 { 'e' }
    else { 'f' }
}

/// Two lowercase hex digit characters per byte, in order.
pub open spec fn hex_digits_of(bytes: Seq<u8>) -> Seq<char> {
    Seq::new(
        2 * bytes.len(),
        |i: int|
            if i % 2 == 0 {
                nibble_char((bytes[i / 2] / 16) as u8)
            } else {
                nibble_char((bytes[i / 2] % 16) as u8)
            },
    )
}

/// The canonical wire encoding of a digest: `0x` followed by 64 digits.
pub open spec fn hex_str_of(bytes: Seq<u8>) -> Seq<char> {
    seq!['0', 'x'] + hex_digits_of(bytes)
}

/// Nibble values of the digit characters after the `0x` prefix.
pub open spec fn nib_vals(s: Seq<char>) -> Seq<u8> {
    Seq::new((s.len() - 2) as nat, |i: int| hex_val_or_zero(s[i + 2]))
}

/// Left-pads a nibble sequence to the 64 nibbles of a digest.
pub open spec fn zero_pad_nibbles(d: Seq<u8>) -> Seq<u8> {
    Seq::new((64 - d.len()) as nat, |i: int| 0u8) + d
}

/// Packs 64 nibbles into 32 bytes, high nibble first.
pub open spec fn bytes_of_nibbles(n: Seq<u8>) -> Seq<u8>
    recommends
        n.len() == 64,
{
    Seq::new(32, |i: int| (16 * n[2 * i] + n[2 * i + 1]) as u8)
}

/// Meaning of a hex digest string: `0x` plus one to 64 hex digits, whose
/// value is the 32-byte digest with zero nibbles padded on the left.
pub open spec fn parse_hex_digest(s: Seq<char>) -> Option<Seq<u8>> {
    if 3 <= s.len() && s.len() <= 66 && s[0] == '0' && s[1] == 'x' && (forall|i: int|
        2 <= i < s.len() ==> is_hex_digit(#[trigger] s[i])) {
        Some(bytes_of_nibbles(zero_pad_nibbles(nib_vals(s))))
    } else {
        None
    }
}

/// Numeric value of one hexadecimal digit character, if it is one.
pub fn hex_digit_value(c: char) -> (r: Option<u8>)
    ensures
        r == hex_val(c),
{
    match c {
        '0' => Some(0u8),
        '1' => Some(1u8),
        '2' => Some(2u8),
        '3' => Some(3u8),
        '4' => Some(4u8),
        '5' => Some(5u8),
        '6' => Some(6u8),
        '7' => Some(7u8),
        '8' => Some(8u8),
        '9' => Some(9u8),
        'a' | 'A' => Some(10u8),
        'b' | 'B' => Some(11u8),
        'c' | 'C' => Some(12u8),
        'd' | 'D' => Some(13u8),
        'e' | 'E' => Some(14u8),
        'f' | 'F' => Some(15u8),
        _ => None,
    }
}

/// One-character string for a nibble value, lowercase.
fn nibble_str(n: u8) -> (r: &'static str)
    requires
        n < 16,
    ensures
        r@ == seq![nibble_char(n)],
{
    if n == 0 { proof { reveal_strlit("0"); assert("0"@ =~= seq![nibble_char(n)]); } "0" }
    else if n == 1 { proof { reveal_strlit("1"); assert("1"@ =~= seq![nibble_char(n)]); } "1" }
    else if n == 2 { proof { reveal_strlit("2"); assert("2"@ =~= seq![nibble_char(n)]); } "2" }
    else if n == 3 { proof { reveal_strlit("3"); assert("3"@ =~= seq![nibble_char(n)]); } "3" }
    else if n == 4 { proof { reveal_strlit("4"); assert("4"@ =~= seq![nibble_char(n)]); } "4" }
    else if n == 5 { proof { reveal_strlit("5"); assert("5"@ =~= seq![nibble_char(n)]); } "5" }
    else if n == 6 { proof { reveal_strlit("6"); assert("6"@ =~= seq![nibble_char(n)]); } "6" }
    else if n == 7 { proof { reveal_strlit("7"); assert("7"@ =~= seq![nibble_char(n)]); } "7" }
    else if n == 8 { proof { reveal_strlit("8"); assert("8"@ =~= seq![nibble_char(n)]); } "8" }
    else if n == 9 { proof { reveal_strlit("9"); assert("9"@ =~= seq![nibble_char(n)]); } "9" }
    else if n == 10 { proof { reveal_strlit("a"); assert("a"@ =~= seq![nibble_char(n)]); } "a" }
    else if n == 11 { proof { reveal_strlit("b"); assert("b"@ =~= seq![nibble_char(n)]); } "b" }
    else if n == 12 { proof { reveal_strlit("c"); assert("c"@ =~= seq![nibble_char(n)]); } "c" }
    else if n == 13 { proof { reveal_strlit("d"); assert("d"@ =~= seq![nibble_char(n)]); } "d" }
    else if n == 14 { proof { reveal_strlit("e"); assert("e"@ =~= seq![nibble_char(n)]); } "e" }
    else { proof { reveal_strlit("f"); assert("f"@ =~= seq![nibble_char(n)]); } "f" }
}

/// Renders a byte string as `0x` plus two lowercase digits per byte.
pub fn to_hex_string(bytes: &Vec<u8>) -> (r: String)
    ensures
        r@ == hex_str_of(bytes@),
{
    let mut r = String::from_str("0x");
    proof {
        reveal_strlit("0x");
        assert(r@ =~= seq!['0', 'x'] + hex_digits_of(bytes@.take(0)));
    }
    let mut i: usize = 0;
    while i < bytes.len()
        invariant
            i <= bytes@.len(),
            r@ == seq!['0', 'x'] + hex_digits_of(bytes@.take(i as int)),
        decreases bytes@.len() - i,
    {
        let b = bytes[i];
        r.append(nibble_str(b / 16));
        r.append(nibble_str(b % 16));
        proof {
            assert(r@ =~= seq!['0', 'x'] + hex_digits_of(bytes@.take(i as int + 1)));
        }
        i += 1;
    }
    proof {
        assert(bytes@.take(bytes@.len() as int) =~= bytes@);
    }
    r
}

/// Parses a `0x`-prefixed hex string into a 32-byte digest, exactly when the
/// string is a well-formed digest encoding.
pub fn parse_hex_string(s: &str) -> (r: Option<Vec<u8>>)
    ensures
        match r {
            Some(v) => parse_hex_digest(s@) == Some(v@),
            None => parse_hex_digest(s@) is None,
        },
{
    let n = s.unicode_len();
    if n < 3 || n > 66 {
        return None;
    }
    if s.get_char(0) != '0' || s.get_char(1) != 'x' {
        return None;
    }
    let pad: usize = 64 - (n - 2);
    let mut nibs: Vec<u8> = Vec::new();
    let mut i: usize = 0;
    while i < pad
        invariant
            i <= pad,
            nibs@ =~= Seq::new(i as nat, |k: int| 0u8),
        decreases pad - i,
    {
        nibs.push(0u8);
        proof {
            assert(nibs@ =~= Seq::new((i + 1) as nat, |k: int| 0u8));
        }
        i += 1;
    }
    let mut j: usize = 2;
    while j < n
        invariant
            2 <= j <= n,
            3 <= n <= 66,
            pad == 64 - (n - 2),
            n == s@.len(),
            nibs@.len() == pad + (j - 2),
            forall|k: int| 0 <= k < pad ==> nibs@[k] == 0u8,
            forall|k: int| pad <= k < nibs@.len() ==> nibs@[k] == hex_val_or_zero(s@[k - pad + 2]),
            forall|k: int| 2 <= k < j ==> is_hex_digit(#[trigger] s@[k]),
        decreases n - j,
    {
        match hex_digit_value(s.get_char(j)) {
            Some(d) => {
                nibs.push(d);
            },
            None => {
                return None;
            },
        }
        j += 1;
    }
    proof {
        assert(nibs@ =~= zero_pad_nibbles(nib_vals(s@)));
    }
    let mut out: Vec<u8> = Vec::new();
    let mut k: usize = 0;
    while k < 32
        invariant
            k <= 32,
            nibs@.len() == 64,
            nibs@ == zero_pad_nibbles(nib_vals(s@)),
            forall|m: int| 0 <= m < 64 ==> nibs@[m] < 16,
            out@ =~= bytes_of_nibbles(nibs@).take(k as int),
        decreases 32 - k,
    {
        let b = 16 * nibs[2 * k] + nibs[2 * k + 1];
        out.push(b);
        proof {
            assert(out@ =~= bytes_of_nibbles(nibs@).take(k as int + 1));
        }
        k += 1;
    }
    proof {
        assert(out@ =~= bytes_of_nibbles(zero_pad_nibbles(nib_vals(s@))));
    }
    Some(out)
}

/// A hex digit character made from a nibble parses back to that nibble.
pub proof fn lemma_nibble_round_trip(n: u8)
    requires
        n < 16,
    ensures
        hex_val(nibble_char(n)) == Some(n),
{
}

/// Rendering a 32-byte digest as hex and parsing the result recovers the
/// digest: the wire encoding of a hash is lossless.
pub proof fn lemma_hex_round_trip(bytes: Seq<u8>)
    requires
        bytes.len() == 32,
    ensures
        parse_hex_digest(hex_str_of(bytes)) == Some(bytes),
{
    let s = hex_str_of(bytes);
    assert(s.len() == 66);
    assert(s[0] == '0');
    assert(s[1] == 'x');
    assert forall|i: int| 2 <= i < s.len() implies is_hex_digit(#[trigger] s[i]) by {
        let b = bytes[(i - 2) / 2];
        assert(b / 16 < 16);
        assert(b % 16 < 16);
        if (i - 2) % 2 == 0 {
            lemma_nibble_round_trip((b / 16) as u8);
        } else {
            lemma_nibble_round_trip((b % 16) as u8);
        }
    }
    let nv = nib_vals(s);
    assert(nv.len() == 64);
    assert(zero_pad_nibbles(nv) =~= nv);
    let out = bytes_of_nibbles(nv);
    assert forall|k: int| 0 <= k < 32 implies out[k] == bytes[k] by {
        let b = bytes[k];
        assert(nv[2 * k] == hex_val_or_zero(s[2 * k + 2]));
        assert(s[2 * k + 2] == nibble_char((b / 16) as u8));
        lemma_nibble_round_trip((b / 16) as u8);
        lemma_nibble_round_trip((b % 16) as u8);
        assert(nv[2 * k] == b / 16);
        assert(nv[2 * k + 1] == b % 16);
        assert(16 * (b / 16) + b % 16 == b) by {
            vstd::arithmetic::div_mod::lemma_fundamental_div_mod(b as int, 16);
        }
    }
    assert(out =~= bytes);
}

/// Copies a byte vector.
pub fn copy_bytes(v: &Vec<u8>) -> (r: Vec<u8>)
    ensures
        r@ == v@,
{
    let mut r: Vec<u8> = Vec::new();
    let mut i: usize = 0;
    while i < v.len()
        invariant
            i <= v@.len(),
            r@ =~= v@.take(i as int),
        decreases v@.len() - i,
    {
        r.push(v[i]);
        proof {
            assert(r@ =~= v@.take(i as int + 1));
        }
        i += 1;
    }
    proof {
        assert(v@.take(v@.len() as int) =~= v@);
    }
    r
}

/// Compares two byte vectors for equality of contents.
pub fn bytes_eq(a: &Vec<u8>, b: &Vec<u8>) -> (r: bool)
    ensures
        r == (a@ == b@),
{
    if a.len() != b.len() {
        proof {
            assert(a@ != b@);
        }
        return false;
    }
    let mut i: usize = 0;
    while i < a.len()
        invariant
            i <= a@.len(),
            a@.len() == b@.len(),
            forall|k: int| 0 <= k < i ==> a@[k] == b@[k],
        decreases a@.len() - i,
    {
        if a[i] != b[i] {
            proof {
                assert(a@ != b@);
            }
            return false;
        }
        i += 1;
    }
    proof {
        assert(a@ =~= b@);
    }
    true
}

/// The hash identifying a block's contents.
#[derive(PartialEq, Eq, Debug)]
pub struct BlockHash {
    pub bytes: Vec<u8>,
}

impl View for BlockHash {
    type V = Seq<u8>;

    open spec fn view(&self) -> Seq<u8> {
        self.bytes@
    }
}

impl BlockHash {
    /// A well-formed digest holds exactly 32 bytes.
    pub open spec fn wf(&self) -> bool {
        self@.len() == 32
    }

    /// Builds a digest from at most 32 bytes, left-padded with zeros.
    pub fn from_bytes(b: &Vec<u8>) -> (r: Self)
        requires
            b@.len() <= 32,
        ensures
            r@ == zero_pad32(b@),
            r.wf(),
    {
        BlockHash { bytes: pad_to_32(b) }
    }

    /// Content equality of two digests.
    pub fn matches(&self, other: &Self) -> (r: bool)
        ensures
            r == (self@ == other@),
    {
        bytes_eq(&self.bytes, &other.bytes)
    }

    /// The digest's canonical hex rendering.
    pub fn to_hex(&self) -> (r: String)
        ensures
            r@ == hex_str_of(self@),
    {
        to_hex_string(&self.bytes)
    }

    /// Parses a digest from its hex rendering; fails exactly on malformed input.
    pub fn from_hex(s: &str) -> (r: Option<Self>)
        ensures
            match r {
                Some(h) => parse_hex_digest(s@) == Some(h@) && h.wf(),
                None => parse_hex_digest(s@) is None,
            },
    {
        match parse_hex_string(s) {
            Some(v) => Some(BlockHash { bytes: v }),
            None => None,
        }
    }
}

impl Clone for BlockHash {
    fn clone(&self) -> (r: Self)
        ensures
            r@ == self@,
    {
        BlockHash { bytes: copy_bytes(&self.bytes) }
    }
}

/// The hash identifying a transaction.
#[derive(PartialEq, Eq, Debug)]
pub struct TransactionHash {
    pub bytes: Vec<u8>,
}

impl View for TransactionHash {
    type V = Seq<u8>;

    open spec fn view(&self) -> Seq<u8> {
        self.bytes@
    }
}

impl TransactionHash {
    /// A well-formed digest holds exactly 32 bytes.
    pub open spec fn wf(&self) -> bool {
        self@.len() == 32
    }

    /// Builds a digest from at most 32 bytes, left-padded with zeros.
    pub fn from_bytes(b: &Vec<u8>) -> (r: Self)
        requires
            b@.len() <= 32,
        ensures
            r@ == zero_pad32(b@),
            r.wf(),
    {
        TransactionHash { bytes: pad_to_32(b) }
    }

    /// Content equality of two digests.
    pub fn matches(&self, other: &Self) -> (r: bool)
        ensures
            r == (self@ == other@),
    {
        bytes_eq(&self.bytes, &other.bytes)
    }

    /// The digest's canonical hex rendering.
    pub fn to_hex(&self) -> (r: String)
        ensures
            r@ == hex_str_of(self@),
    {
        to_hex_string(&self.bytes)
    }

    /// Parses a digest from its hex rendering; fails exactly on malformed input.
    pub fn from_hex(s: &str) -> (r: Option<Self>)
        ensures
            match r {
                Some(h) => parse_hex_digest(s@) == Some(h@) && h.wf(),
                None => parse_hex_digest(s@) is None,
            },
    {
        match parse_hex_string(s) {
            Some(v) => Some(TransactionHash { bytes: v }),
            None => None,
        }
    }
}

impl Clone for TransactionHash {
    fn clone(&self) -> (r: Self)
        ensures
            r@ == self@,
    {
        TransactionHash { bytes: copy_bytes(&self.bytes) }
    }
}

/// Left-pads a byte vector to 32 bytes with zeros.
fn pad_to_32(b: &Vec<u8>) -> (r: Vec<u8>)
    requires
        b@.len() <= 32,
    ensures
        r@ == zero_pad32(b@),
{
    let pad: usize = 32 - b.len();
    let mut r: Vec<u8> = Vec::new();
    let mut i: usize = 0;
    while i < pad
        invariant
            i <= pad,
            r@ =~= Seq::new(i as nat, |k: int| 0u8),
        decreases pad - i,
    {
        r.push(0u8);
        proof {
            assert(r@ =~= Seq::new((i + 1) as nat, |k: int| 0u8));
        }
        i += 1;
    }
    let mut j: usize = 0;
    while j < b.len()
        invariant
            j <= b@.len(),
            b@.len() <= 32,
            pad == 32 - b@.len(),
            r@ =~= Seq::new(pad as nat, |k: int| 0u8) + b@.take(j as int),
        decreases b@.len() - j,
    {
        r.push(b[j]);
        proof {
            assert(r@ =~= Seq::new(pad as nat, |k: int| 0u8) + b@.take(j as int + 1));
        }
        j += 1;
    }
    proof {
        assert(b@.take(b@.len() as int) =~= b@);
        assert(r@ =~= zero_pad32(b@));
    }
    r
}

} // verus!
