//! Node identities: ed25519 public keys, their 52-character base32 names
//! ("id52"), and secret keys as they are kept in the system keyring.

use vstd::prelude::*;
use vstd::string::*;
use vstd::utf8::{encode_utf8, is_ascii_chars, is_ascii_chars_encode_utf8};
use vstd::arithmetic::power2::pow2;

use crate::text::{decimal, u64_to_decimal};

verus! {

/// Bit `i` of the bytes, the most significant bit of each byte first; zero
/// past the last byte.
pub open spec fn bit_of(bytes: Seq<u8>, i: int) -> nat {
    if 0 <= i < 8 * bytes.len() {
        ((bytes[i / 8] as nat) / pow2((7 - i % 8) as nat)) % 2
    } else {
        0
    }
}

/// The value of the `g`-th group of five bits, first bit highest.
pub open spec fn five_bit_group(bytes: Seq<u8>, g: int) -> nat {
    16 * bit_of(bytes, 5 * g) + 8 * bit_of(bytes, 5 * g + 1) + 4 * bit_of(bytes, 5 * g + 2) + 2
        * bit_of(bytes, 5 * g + 3) + bit_of(bytes, 5 * g + 4)
}

/// The symbol of a five-bit value in the DNSSEC base32 alphabet
/// "0123456789abcdefghijklmnopqrstuv".
pub open spec fn base32_dnssec_symbol(v: nat) -> char {
    if v < 10 {
        (48 + v) as char
    } else {
        (87 + v) as char
    }
}

/// Unpadded base32 with the DNSSEC (extended hex, lowercase) alphabet: the
/// bits of the bytes in groups of five, the last group filled with zero bits,
/// one symbol per group, `ceil(8 * n / 5)` symbols.
pub open spec fn base32_dnssec_encoding(bytes: Seq<u8>) -> Seq<char> {
    Seq::new(
        ((8 * bytes.len() + 4) / 5) as nat,
        |g: int| base32_dnssec_symbol(five_bit_group(bytes, g)),
    )
}

/// The bytes (ASCII) of the encoding of the data.
pub open spec fn base32_dnssec_bytes(data: Seq<u8>) -> Seq<u8> {
    base32_dnssec_encoding(data).map_values(|c: char| c as u8)
}

/// The bytes with every ASCII capital letter made lowercase.
pub open spec fn ascii_lowercase(bytes: Seq<u8>) -> Seq<u8> {
    Seq::new(
        bytes.len(),
        |i: int|
            if 65 <= bytes[i] <= 90 {
                (bytes[i] + 32) as u8
            } else {
                bytes[i]
            },
    )
}

/// The data whose encoding is the given lowercase text, where there is one
/// (the encoding is one to one, so there is at most one).
pub open spec fn base32_dnssec_data_of(lower: Seq<u8>) -> Option<Seq<u8>> {
    if exists|data: Seq<u8>| #[trigger] base32_dnssec_bytes(data) == lower {
        Some(choose|data: Seq<u8>| #[trigger] base32_dnssec_bytes(data) == lower)
    } else {
        None
    }
}

/// What `data_encoding::BASE32_DNSSEC.decode` accepts and returns: an input
/// decodes exactly where, with its ASCII capitals made lowercase, it is the
/// encoding of some data, and then to that data.
pub open spec fn base32_dnssec_decoding(input: Seq<u8>) -> Option<Seq<u8>> {
    base32_dnssec_data_of(ascii_lowercase(input))
}

/// The error that `data_encoding::BASE32_DNSSEC.decode` reports for an input
/// it refuses, as the library's error.
pub uninterp spec fn base32_dnssec_decode_error(input: Seq<u8>) -> Base32Error;

/// Whether `iroh_base::PublicKey::from_bytes` accepts the 32 bytes, that is,
/// whether they are the compressed form of a point of the ed25519 curve.
pub uninterp spec fn is_ed25519_point(bytes: Seq<u8>) -> bool;

/// The bytes of the public key that belongs to an ed25519 secret key, as
/// `iroh_base::SecretKey::public` computes it.
pub uninterp spec fn ed25519_public_of(secret: Seq<u8>) -> Seq<u8>;

/// The value of a symbol of the DNSSEC base32 alphabet.
pub open spec fn base32_dnssec_symbol_value(c: char) -> int {
    if '0' <= c <= '9' {
        c as int - 48
    } else {
        c as int - 87
    }
}

proof fn lemma_bit_of_concat(a: Seq<u8>, b: Seq<u8>, i: int)
    requires
        0 <= i,
    ensures
        i < 8 * a.len() ==> bit_of(a + b, i) == bit_of(a, i),
        bit_of(a + b, 8 * a.len() + i) == bit_of(b, i),
{
    let ab: Seq<u8> = a + b;
    if i < 8 * a.len() {
        assert(ab[i / 8] == a[i / 8]);
    }
    let k: int = 8 * a.len() + i;
    assert(k / 8 == a.len() + i / 8);
    assert(k % 8 == i % 8);
    if i < 8 * b.len() {
        assert(ab[k / 8] == b[i / 8]);
    }
}

/// The encoding is made of `ceil(8 * n / 5)` symbols of the alphabet
/// "0123456789abcdefghijklmnopqrstuv", and it goes block by block: data
/// whose first part is a whole number of five-byte blocks encodes as the
/// encoding of that part followed by the encoding of the rest.
pub proof fn lemma_base32_dnssec_blocks(a: Seq<u8>, b: Seq<u8>)
    requires
        a.len() % 5 == 0,
    ensures
        base32_dnssec_encoding(a).len() == (8 * a.len() + 4) / 5,
        forall|g: int|
            0 <= g < base32_dnssec_encoding(a).len() ==> {
                let c: char = #[trigger] base32_dnssec_encoding(a)[g];
                &&& ('0' <= c <= '9' || 'a' <= c <= 'v')
                &&& 0 <= base32_dnssec_symbol_value(c) < 32
            },
        base32_dnssec_encoding(a + b) == base32_dnssec_encoding(a) + base32_dnssec_encoding(b),
{
    let ea: Seq<char> = base32_dnssec_encoding(a);
    let eb: Seq<char> = base32_dnssec_encoding(b);
    let eab: Seq<char> = base32_dnssec_encoding(a + b);
    let m: int = (8 * a.len() / 5) as int;
    assert(m * 5 == 8 * a.len());
    assert(ea.len() == m);
    assert(eab.len() == ea.len() + eb.len());
    assert('0' as int == 48 && '9' as int == 57 && 'a' as int == 97 && 'v' as int == 118);
    assert forall|g: int| 0 <= g < ea.len() implies {
        let c: char = #[trigger] ea[g];
        &&& ('0' <= c <= '9' || 'a' <= c <= 'v')
        &&& 0 <= base32_dnssec_symbol_value(c) < 32
    } by {
        lemma_bits_below_two(a, 5 * g);
        lemma_bits_below_two(a, 5 * g + 1);
        lemma_bits_below_two(a, 5 * g + 2);
        lemma_bits_below_two(a, 5 * g + 3);
        lemma_bits_below_two(a, 5 * g + 4);
        let v: nat = five_bit_group(a, g);
        assert(base32_dnssec_symbol(v) as int == if v < 10 { 48 + v } else { 87 + v });
    }
    assert forall|g: int| 0 <= g < eab.len() implies #[trigger] eab[g] == (ea + eb)[g] by {
        if g < m {
            lemma_bit_of_concat(a, b, 5 * g);
            lemma_bit_of_concat(a, b, 5 * g + 1);
            lemma_bit_of_concat(a, b, 5 * g + 2);
            lemma_bit_of_concat(a, b, 5 * g + 3);
            lemma_bit_of_concat(a, b, 5 * g + 4);
        } else {
            let h: int = g - m;
            assert(5 * g == 8 * a.len() + 5 * h);
            lemma_bit_of_concat(a, b, 5 * h);
            lemma_bit_of_concat(a, b, 5 * h + 1);
            lemma_bit_of_concat(a, b, 5 * h + 2);
            lemma_bit_of_concat(a, b, 5 * h + 3);
            lemma_bit_of_concat(a, b, 5 * h + 4);
        }
    }
    assert(eab =~= ea + eb);
}

/// What kind of input base32 decoding refused.
#[derive(Debug, Clone, Copy, PartialEq, Eq)]
pub enum Base32ErrorKind {
    /// Invalid length.
    Length,
    /// Invalid symbol.
    Symbol,
    /// Non-zero trailing bits.
    Trailing,
    /// Invalid padding length.
    Padding,
}

/// Why base32 decoding refused an input: the kind of error and the position
/// in the input where it was found.
#[derive(Debug, Clone, Copy, PartialEq, Eq)]
pub struct Base32Error {
    pub kind: Base32ErrorKind,
    pub position: usize,
}

/// The description of an error kind.
pub open spec fn base32_error_kind_text(kind: Base32ErrorKind) -> Seq<char> {
    match kind {
        Base32ErrorKind::Length => "invalid length"@,
        Base32ErrorKind::Symbol => "invalid symbol"@,
        Base32ErrorKind::Trailing => "non-zero trailing bits"@,
        Base32ErrorKind::Padding => "invalid padding length"@,
    }
}

impl Base32Error {
    /// The error's message: the kind's description, " at " and the position.
    pub fn message(&self) -> (s: String)
        ensures
            s@ == base32_error_kind_text(self.kind) + " at "@ + decimal(self.position as nat),
    {
        let mut s: String = match self.kind {
            Base32ErrorKind::Length => String::from_str("invalid length"),
            Base32ErrorKind::Symbol => String::from_str("invalid symbol"),
            Base32ErrorKind::Trailing => String::from_str("non-zero trailing bits"),
            Base32ErrorKind::Padding => String::from_str("invalid padding length"),
        };
        s.append(" at ");
        let digits: String = u64_to_decimal(self.position as u64);
        s.append(digits.as_str());
        s
    }
}

/// Calls `data_encoding::BASE32_DNSSEC.encode`. The crate documents this
/// encoding (symbols "0123456789abcdefghijklmnopqrstuv", most significant
/// bit first, no padding, RFC 4648 base32hex in lowercase) and that encoding
/// followed by decoding gives the initial data (so the encoding is one to
/// one).
#[verifier::external_body]
fn base32_dnssec_encode(bytes: &[u8]) -> (s: String)
    requires
        bytes@.len() <= usize::MAX / 512,
    ensures
        s@ == base32_dnssec_encoding(bytes@),
        base32_dnssec_decoding(encode_utf8(s@)) == Some(bytes@),
{
    data_encoding::BASE32_DNSSEC.encode(bytes)
}

/// Calls `data_encoding::BASE32_DNSSEC.decode`. Its configuration translates
/// the capitals "A".."V" to lowercase, has no padding, ignores no character
/// and checks trailing bits, so it accepts exactly the inputs that are, up to
/// ASCII case, an encoding, and returns the encoded data. The error's kind and
/// position are moved into the library's error, whose value is named; the
/// crate documents the position as a valid input position. The source
/// asserts (and may panic) above an input length of `usize::MAX / 8`.
#[verifier::external_body]
fn base32_dnssec_decode(input: &[u8]) -> (r: Result<Vec<u8>, Base32Error>)
    requires
        input@.len() <= usize::MAX / 8,
    ensures
        match r {
            Ok(v) => base32_dnssec_decoding(input@) == Some(v@),
            Err(e) => base32_dnssec_decoding(input@) is None && e == base32_dnssec_decode_error(
                input@,
            ) && e.position <= input@.len(),
        },
{
    match data_encoding::BASE32_DNSSEC.decode(input) {
        Ok(v) => Ok(v),
        Err(e) => Err(Base32Error {
            kind: match e.kind {
                data_encoding::DecodeKind::Length => Base32ErrorKind::Length,
                data_encoding::DecodeKind::Symbol => Base32ErrorKind::Symbol,
                data_encoding::DecodeKind::Trailing => Base32ErrorKind::Trailing,
                data_encoding::DecodeKind::Padding => Base32ErrorKind::Padding,
            },
            position: e.position,
        }),
    }
}

/// Calls `iroh_base::PublicKey::from_bytes` and reads the accepted key back
/// with `as_bytes`. The source stores the given compressed point unchanged
/// (`VerifyingKey::from_bytes` keeps `CompressedEdwardsY(*bytes)`), so an
/// accepted key has the given bytes.
#[verifier::external_body]
fn checked_public_key_bytes(bytes: [u8; 32]) -> (r: Option<[u8; 32]>)
    ensures
        r is Some <==> is_ed25519_point(bytes@),
        r matches Some(b) ==> b@ == bytes@,
{
    match iroh_base::PublicKey::from_bytes(&bytes) {
        Ok(k) => Some(*k.as_bytes()),
        Err(_) => None,
    }
}

/// Calls `iroh_base::SecretKey::from_bytes(..).public().as_bytes()`. The
/// result is named; iroh documents that `PublicKey::from_bytes` never fails
/// on bytes returned by `as_bytes`, so the result is a curve point.
#[verifier::external_body]
fn public_key_of_secret(secret: [u8; 32]) -> (p: [u8; 32])
    ensures
        p@ == ed25519_public_of(secret@),
        is_ed25519_point(p@),
{
    *iroh_base::SecretKey::from_bytes(&secret).public().as_bytes()
}

/// The lowercase hexadecimal digit of a value below 16.
pub open spec fn hex_digit(d: nat) -> char {
    if d < 10 {
        (48 + d) as char
    } else {
        (87 + d) as char
    }
}

/// Lowercase hexadecimal rendering, two digits per byte, high nibble first.
pub open spec fn hex_lower(bytes: Seq<u8>) -> Seq<char>
    decreases bytes.len(),
{
    if bytes.len() == 0 {
        seq![]
    } else {
        seq![hex_digit(bytes[0] as nat / 16), hex_digit(bytes[0] as nat % 16)] + hex_lower(
            bytes.drop_first(),
        )
    }
}

/// The value of a lowercase hexadecimal digit.
pub open spec fn hex_value(c: char) -> int {
    if '0' <= c <= '9' {
        c as int - 48
    } else {
        c as int - 87
    }
}

/// The hexadecimal rendering is the standard one: two characters per byte,
/// each one of "0123456789abcdef", and the two characters of byte `i` read
/// back as that byte.
pub proof fn lemma_hex_lower_reads_back(bytes: Seq<u8>, i: int)
    requires
        0 <= i < bytes.len(),
    ensures
        hex_lower(bytes).len() == 2 * bytes.len(),
        ('0' <= hex_lower(bytes)[2 * i] <= '9' || 'a' <= hex_lower(bytes)[2 * i] <= 'f'),
        ('0' <= hex_lower(bytes)[2 * i + 1] <= '9' || 'a' <= hex_lower(bytes)[2 * i + 1] <= 'f'),
        hex_value(hex_lower(bytes)[2 * i]) * 16 + hex_value(hex_lower(bytes)[2 * i + 1])
            == bytes[i],
    decreases bytes.len(),
{
    let h: Seq<char> = hex_lower(bytes);
    let rest: Seq<u8> = bytes.drop_first();
    if i == 0 {
        if rest.len() > 0 {
            lemma_hex_lower_reads_back(rest, 0);
        } else {
            assert(hex_lower(rest).len() == 0);
        }
        let hi: nat = bytes[0] as nat / 16;
        let lo: nat = bytes[0] as nat % 16;
        assert(hi < 16 && lo < 16);
        assert(h[0] == hex_digit(hi));
        assert(h[1] == hex_digit(lo));
        assert(hex_digit(hi) as int == if hi < 10 { 48 + hi } else { 87 + hi });
        assert(hex_digit(lo) as int == if lo < 10 { 48 + lo } else { 87 + lo });
        assert('0' as int == 48 && '9' as int == 57 && 'a' as int == 97 && 'f' as int == 102);
        assert(hi * 16 + lo == bytes[0]);
    } else {
        lemma_hex_lower_reads_back(rest, i - 1);
        assert(h[2 * i] == hex_lower(rest)[2 * (i - 1)]);
        assert(h[2 * i + 1] == hex_lower(rest)[2 * (i - 1) + 1]);
        assert(rest[i - 1] == bytes[i]);
    }
}

/// Calls the `Display` impl of `iroh_base::PublicKey` (`to_string`), which
/// writes `data_encoding::HEXLOWER.encode(self.as_bytes())`: lowercase
/// hexadecimal, two digits per byte. `from_bytes` cannot fail on a curve
/// point, which `requires` asks for.
#[verifier::external_body]
fn public_key_display(bytes: [u8; 32]) -> (s: String)
    requires
        is_ed25519_point(bytes@),
    ensures
        s@ == hex_lower(bytes@),
{
    match iroh_base::PublicKey::from_bytes(&bytes) {
        Ok(k) => k.to_string(),
        Err(_) => String::new(),
    }
}

/// An ed25519 public key: the 32 bytes of a compressed curve point.
#[derive(Clone, Copy, PartialEq, Eq)]
pub struct PublicKey {
    bytes: [u8; 32],
}

impl View for PublicKey {
    type V = Seq<u8>;

    /// The bytes of the key.
    closed spec fn view(&self) -> Seq<u8> {
        self.bytes@
    }
}

impl PublicKey {
    #[verifier::type_invariant]
    spec fn is_point(self) -> bool {
        is_ed25519_point(self.bytes@)
    }


    /// The key with the given bytes, where they are a curve point.
    pub fn from_bytes(bytes: [u8; 32]) -> (r: Option<PublicKey>)
        ensures
            r is Some <==> is_ed25519_point(bytes@),
            r matches Some(k) ==> k.view() == bytes@,
    {
        match checked_public_key_bytes(bytes) {
            Some(b) => Some(PublicKey { bytes: b }),
            None => None,
        }
    }

    /// The bytes of the key; they are always a curve point.
    pub fn as_bytes(&self) -> (b: [u8; 32])
        ensures
            b@ == self.view(),
            b@.len() == 32,
            is_ed25519_point(b@),
    {
        proof {
            use_type_invariant(self);
        }
        self.bytes
    }

    /// The lowercase hexadecimal form of the key, as iroh displays it.
    pub fn to_hex(&self) -> (s: String)
        ensures
            s@ == hex_lower(self.view()),
    {
        proof {
            use_type_invariant(self);
        }
        public_key_display(self.bytes)
    }
}

/// An ed25519 secret key: its 32 secret bytes.
#[derive(Clone, Copy, PartialEq, Eq)]
pub struct SecretKey {
    bytes: [u8; 32],
}

impl View for SecretKey {
    type V = Seq<u8>;

    /// The secret bytes.
    closed spec fn view(&self) -> Seq<u8> {
        self.bytes@
    }
}

impl SecretKey {

    /// The secret key with the given bytes (every 32 bytes are one).
    pub fn from_bytes(bytes: [u8; 32]) -> (k: SecretKey)
        ensures
            k.view() == bytes@,
    {
        SecretKey { bytes }
    }

    /// The secret bytes, as they are stored.
    pub fn to_bytes(&self) -> (b: [u8; 32])
        ensures
            b@ == self.view(),
            b@.len() == 32,
    {
        self.bytes
    }

    /// The public key of this secret key.
    pub fn public(&self) -> (p: PublicKey)
        ensures
            p.view() == ed25519_public_of(self.view()),
    {
        let b: [u8; 32] = public_key_of_secret(self.bytes);
        PublicKey { bytes: b }
    }
}

/// The key that an id52 names: the base32 (DNSSEC alphabet) decoding of its
/// UTF-8 bytes, where that decoding succeeds, has 32 bytes and is a curve point.
pub open spec fn id52_key(id: Seq<char>) -> Option<Seq<u8>> {
    match base32_dnssec_decoding(encode_utf8(id)) {
        Some(b) => if b.len() == 32 && is_ed25519_point(b) {
            Some(b)
        } else {
            None
        },
        None => None,
    }
}

proof fn lemma_bits_below_two(data: Seq<u8>, i: int)
    ensures
        bit_of(data, i) < 2,
{
}

/// The encoding is ASCII: its UTF-8 bytes are its characters one by one, and
/// it has no capitals.
proof fn lemma_encoding_is_lowercase_ascii(data: Seq<u8>)
    ensures
        encode_utf8(base32_dnssec_encoding(data)) == base32_dnssec_bytes(data),
        ascii_lowercase(base32_dnssec_bytes(data)) == base32_dnssec_bytes(data),
{
    let e: Seq<char> = base32_dnssec_encoding(data);
    let b: Seq<u8> = base32_dnssec_bytes(data);
    assert forall|g: int| #![trigger e[g]] 0 <= g < e.len() implies {
        let v: nat = five_bit_group(data, g);
        &&& v < 32
        &&& (v < 10 ==> e[g] == (48 + v) as char && (e[g] as u8) == 48 + v)
        &&& (v >= 10 ==> e[g] == (87 + v) as char && (e[g] as u8) == 87 + v)
    } by {
        lemma_bits_below_two(data, 5 * g);
        lemma_bits_below_two(data, 5 * g + 1);
        lemma_bits_below_two(data, 5 * g + 2);
        lemma_bits_below_two(data, 5 * g + 3);
        lemma_bits_below_two(data, 5 * g + 4);
    }
    assert(is_ascii_chars(e));
    is_ascii_chars_encode_utf8(e);
    assert(encode_utf8(e) =~= b);
    assert(ascii_lowercase(b) =~= b);
}

/// An id52 is read the same whatever the case of its ASCII letters: two ids
/// whose UTF-8 bytes agree once their capitals are made lowercase name the
/// same key, or both name none.
pub proof fn lemma_id52_case_insensitive(a: Seq<char>, b: Seq<char>)
    requires
        ascii_lowercase(encode_utf8(a)) == ascii_lowercase(encode_utf8(b)),
    ensures
        id52_key(a) == id52_key(b),
{
}

/// An id that names a key is that key's id52 up to case: its UTF-8 bytes,
/// with capitals made lowercase, are the key's encoding, which is what
/// `public_key_to_id52` writes.
pub proof fn lemma_id52_names_own_encoding(id: Seq<char>, key: Seq<u8>)
    requires
        id52_key(id) == Some(key),
    ensures
        ascii_lowercase(encode_utf8(id)) == base32_dnssec_bytes(key),
{
}

/// The id52 of a public key: its 32 bytes in unpadded base32 with the
/// DNSSEC alphabet, 52 characters. Reading the id52 back with
/// `id52_to_public_key` gives this key again.
pub fn public_key_to_id52(key: &PublicKey) -> (s: String)
    ensures
        s@ == base32_dnssec_encoding(key.view()),
        encode_utf8(s@) == base32_dnssec_bytes(key.view()),
        s@.len() == 52,
        id52_key(s@) == Some(key.view()),
{
    let b: [u8; 32] = key.as_bytes();
    proof {
        lemma_encoding_is_lowercase_ascii(key.view());
    }
    base32_dnssec_encode(b.as_slice())
}

/// The id52 of the peer at the other end of a connection, from the outcome of
/// reading its node id: the id52 of the key, or, where reading failed, the
/// error "could not read remote node id: " followed by the reason.
pub fn remote_id52(remote_node_id: Result<PublicKey, String>) -> (r: Result<String, String>)
    ensures
        match remote_node_id {
            Ok(k) => r matches Ok(id) && id@ == base32_dnssec_encoding(k.view()),
            Err(e) => r matches Err(m) && m@ == "could not read remote node id: "@ + e@,
        },
{
    match remote_node_id {
        Ok(k) => Ok(public_key_to_id52(&k)),
        Err(e) => {
            let mut m: String = String::from_str("could not read remote node id: ");
            m.append(e.as_str());
            Err(m)
        },
    }
}

/// Why an id52 names no public key.
#[derive(Debug, PartialEq, Eq)]
pub enum Id52Error {
    /// The id is not base32 (DNSSEC alphabet).
    Decode(Base32Error),
    /// The id decodes to this many bytes, not 32.
    InvalidLength(usize),
    /// The 32 decoded bytes are not an ed25519 public key.
    InvalidKey,
}

impl Id52Error {
    /// The error's message: the decoding error's message; "read: id has
    /// invalid length: " and the length; or "failed to parse id to public key".
    pub fn message(&self) -> (s: String)
        ensures
            match self {
                Id52Error::Decode(e) => s@ == base32_error_kind_text(e.kind) + " at "@ + decimal(
                    e.position as nat,
                ),
                Id52Error::InvalidLength(n) => s@ == "read: id has invalid length: "@ + decimal(
                    *n as nat,
                ),
                Id52Error::InvalidKey => s@ == "failed to parse id to public key"@,
            },
    {
        match self {
            Id52Error::Decode(e) => e.message(),
            Id52Error::InvalidLength(n) => {
                let mut s: String = String::from_str("read: id has invalid length: ");
                let digits: String = u64_to_decimal(*n as u64);
                s.append(digits.as_str());
                s
            },
            Id52Error::InvalidKey => String::from_str("failed to parse id to public key"),
        }
    }
}

/// Copies 32 bytes of a vector into an array.
fn vec_to_array(v: &Vec<u8>) -> (a: [u8; 32])
    requires
        v@.len() == 32,
    ensures
        a@ == v@,
{
    let mut a: [u8; 32] = [0u8; 32];
    let mut i: usize = 0;
    while i < 32
        invariant
            0 <= i <= 32,
            v@.len() == 32,
            a@.len() == 32,
            forall|j: int| 0 <= j < i ==> a@[j] == v@[j],
        decreases 32 - i,
    {
        a[i] = v[i];
        i = i + 1;
    }
    assert(a@ =~= v@);
    a
}

/// The public key named by the outcome of decoding an id52: a decoding
/// error stays one; decoded bytes must be 32 and an ed25519 curve point.
pub fn public_key_from_decoded(decoded: Result<Vec<u8>, Base32Error>) -> (r: Result<PublicKey, Id52Error>)
    ensures
        match decoded {
            Err(e) => r == Err::<PublicKey, Id52Error>(Id52Error::Decode(e)),
            Ok(b) => if b@.len() != 32 {
                r == Err::<PublicKey, Id52Error>(Id52Error::InvalidLength(b@.len() as usize))
            } else if !is_ed25519_point(b@) {
                r == Err::<PublicKey, Id52Error>(Id52Error::InvalidKey)
            } else {
                r matches Ok(k) && k.view() == b@
            },
        },
{
    let bytes: Vec<u8> = match decoded {
        Ok(v) => v,
        Err(e) => {
            return Err(Id52Error::Decode(e));
        },
    };
    if bytes.len() != 32 {
        return Err(Id52Error::InvalidLength(bytes.len()));
    }
    let arr: [u8; 32] = vec_to_array(&bytes);
    match PublicKey::from_bytes(arr) {
        Some(k) => Ok(k),
        None => Err(Id52Error::InvalidKey),
    }
}

/// Reads an id52 back into the public key it names: its UTF-8 bytes are
/// decoded as base32 (DNSSEC alphabet, either case) and the result goes
/// through `public_key_from_decoded`.
pub fn id52_to_public_key(id: &str) -> (r: Result<PublicKey, Id52Error>)
    requires
        id.spec_bytes().len() <= usize::MAX / 8,
    ensures
        r is Ok <==> id52_key(id@) is Some,
        r matches Ok(k) ==> id52_key(id@) == Some(k.view()),
        match base32_dnssec_decoding(id.spec_bytes()) {
            None => r matches Err(Id52Error::Decode(e)) && e.position <= id.spec_bytes().len(),
            Some(b) => if b.len() != 32 {
                r == Err::<PublicKey, Id52Error>(Id52Error::InvalidLength(b.len() as usize))
            } else if !is_ed25519_point(b) {
                r == Err::<PublicKey, Id52Error>(Id52Error::InvalidKey)
            } else {
                r matches Ok(k) && k.view() == b
            },
        },
{
    public_key_from_decoded(base32_dnssec_decode(id.as_bytes()))
}

/// Why bytes read from the keyring are no secret key.
#[derive(Debug, PartialEq, Eq)]
pub enum StoredSecretError {
    /// The stored secret has this many bytes, not 32.
    InvalidLength(usize),
}

impl StoredSecretError {
    /// The error's message: "keyring: secret has invalid length: " and the
    /// length in decimal.
    pub fn message(&self) -> (s: String)
        ensures
            match self {
                StoredSecretError::InvalidLength(n) => s@ == "keyring: secret has invalid length: "@
                    + decimal(*n as nat),
            },
    {
        match self {
            StoredSecretError::InvalidLength(n) => {
                let mut s: String = String::from_str("keyring: secret has invalid length: ");
                let digits: String = u64_to_decimal(*n as u64);
                s.append(digits.as_str());
                s
            },
        }
    }
}

/// The secret that stored bytes hold: the bytes themselves, where they are 32.
pub open spec fn stored_secret(stored: Seq<u8>) -> Option<Seq<u8>> {
    if stored.len() == 32 {
        Some(stored)
    } else {
        None
    }
}

/// A secret key stored as its bytes (`to_bytes`) reads back
/// (`secret_key_from_stored`) as the same key.
pub proof fn lemma_stored_secret_round_trip(key: SecretKey)
    ensures
        stored_secret(key.view()) == Some(key.view()),
{
}

/// The secret key kept as the given bytes: they must be exactly 32.
pub fn secret_key_from_stored(secret: Vec<u8>) -> (r: Result<SecretKey, StoredSecretError>)
    ensures
        r is Ok <==> stored_secret(secret@) is Some,
        r matches Ok(k) ==> stored_secret(secret@) == Some(k.view()),
        r matches Err(StoredSecretError::InvalidLength(n)) ==> n == secret@.len(),
{
    if secret.len() != 32 {
        return Err(StoredSecretError::InvalidLength(secret.len()));
    }
    let arr: [u8; 32] = vec_to_array(&secret);
    Ok(SecretKey::from_bytes(arr))
}

} // verus!
