//! Access tokens: what a client gets for a payment and shows on each later
//! request.
//!
//! A token names no record on the server. It holds the moment until which
//! it is good and a keyed hash over that moment and the resource; the server
//! makes the hash again on each request and compares.

use vstd::prelude::*;
use vstd::slice::{slice_subrange, slice_to_vec};
use vstd::string::*;
use vstd::utf8::encode_utf8;

use crate::crypto::{bytes_equal, hmac_sha256, hmac_sha256_code};

verus! {

/// Length in bytes of a token's keyed hash.
pub const MAC_LEN: usize = 32;

/// Length in bytes of what a token holds: its expiry and its keyed hash.
pub const TOKEN_LEN: usize = 40;

/// The eight bytes of `value`, most significant first.
#[verifier::opaque]
pub open spec fn be_bytes(value: u64) -> Seq<u8> {
    seq![
        (value / 0x100_0000_0000_0000) as u8,
        (value / 0x1_0000_0000_0000 % 256) as u8,
        (value / 0x100_0000_0000 % 256) as u8,
        (value / 0x1_0000_0000 % 256) as u8,
        (value / 0x100_0000 % 256) as u8,
        (value / 0x1_0000 % 256) as u8,
        (value / 0x100 % 256) as u8,
        (value % 256) as u8,
    ]
}

/// The number that the first eight of `bytes` spell, most significant
/// first.
#[verifier::opaque]
pub open spec fn be_u64(bytes: Seq<u8>) -> u64 {
    (bytes[0] * 0x100_0000_0000_0000 + bytes[1] * 0x1_0000_0000_0000 + bytes[2]
        * 0x100_0000_0000 + bytes[3] * 0x1_0000_0000 + bytes[4] * 0x100_0000 + bytes[5] * 0x1_0000
        + bytes[6] * 0x100 + bytes[7]) as u64
}

/// The hexadecimal digit, in lower case, of a number below sixteen.
pub open spec fn hex_digit(nibble: u8) -> u8 {
    if nibble < 10 {
        (0x30 + nibble) as u8
    } else {
        (0x57 + nibble) as u8
    }
}

/// The number below sixteen that a lower-case hexadecimal digit stands for.
pub open spec fn hex_value(digit: u8) -> Option<u8> {
    if 0x30 <= digit <= 0x39 {
        Some((digit - 0x30) as u8)
    } else if 0x61 <= digit <= 0x66 {
        Some((digit - 0x57) as u8)
    } else {
        None
    }
}

/// `bytes` in hexadecimal: two lower-case digits for each.
pub open spec fn hex_of(bytes: Seq<u8>) -> Seq<u8> {
    Seq::new(
        2 * bytes.len(),
        |i: int|
            if i % 2 == 0 {
                hex_digit(bytes[i / 2] / 16)
            } else {
                hex_digit(bytes[i / 2] % 16)
            },
    )
}

/// Whether `text` is hexadecimal: lower-case digits, two for each byte.
pub open spec fn is_hex(text: Seq<u8>) -> bool {
    text.len() % 2 == 0 && forall|i: int| 0 <= i < text.len() ==> hex_value(#[trigger] text[i]) is Some
}

/// The bytes that the hexadecimal `text` spells.
pub open spec fn unhex(text: Seq<u8>) -> Option<Seq<u8>> {
    if is_hex(text) {
        Some(
            Seq::new(
                text.len() / 2,
                |i: int|
                    (hex_value(text[2 * i])->Some_0 * 16 + hex_value(text[2 * i + 1])->Some_0) as u8,
            ),
        )
    } else {
        None
    }
}

/// The word in front of a token in a request's authorization: `Bearer` and
/// a space.
pub open spec fn bearer_prefix() -> Seq<u8> {
    seq![0x42, 0x65, 0x61, 0x72, 0x65, 0x72, 0x20]
}

/// What a client shows for a token that is good until `expires_at` and has
/// the keyed hash `mac`.
pub open spec fn bearer_of(expires_at: u64, mac: Seq<u8>) -> Seq<u8> {
    bearer_prefix() + hex_of(be_bytes(expires_at) + mac)
}

/// The expiry and the keyed hash of the token that `header` shows, if it
/// shows one.
pub open spec fn parse_bearer(header: Seq<u8>) -> Option<(u64, Seq<u8>)> {
    if header.len() == 7 + 2 * TOKEN_LEN && header.subrange(0, 7) == bearer_prefix() {
        match unhex(header.subrange(7, header.len() as int)) {
            Some(token) => Some((be_u64(token), token.subrange(8, TOKEN_LEN as int))),
            None => None,
        }
    } else {
        None
    }
}

/// What the keyed hash of a token covers: the expiry, then the resource.
pub open spec fn token_message(resource: Seq<u8>, expires_at: u64) -> Seq<u8> {
    be_bytes(expires_at) + resource
}

/// The keyed hash of the token for `resource` that is good until
/// `expires_at`, under `secret`.
pub open spec fn token_mac(secret: Seq<u8>, resource: Seq<u8>, expires_at: u64) -> Seq<u8> {
    hmac_sha256(secret, token_message(resource, expires_at))
}

/// Eight bytes spell the number that they were made from.
pub proof fn lemma_be_round_trip(value: u64)
    ensures
        be_bytes(value).len() == 8,
        be_u64(be_bytes(value)) == value,
{
    reveal(be_bytes);
    reveal(be_u64);
    let q1 = value / 0x100;
    let q2 = value / 0x1_0000;
    let q3 = value / 0x100_0000;
    let q4 = value / 0x1_0000_0000;
    let q5 = value / 0x100_0000_0000;
    let q6 = value / 0x1_0000_0000_0000;
    let q7 = value / 0x100_0000_0000_0000;
    assert(value == q1 * 0x100 + value % 256);
    assert(q1 == q2 * 0x100 + q1 % 256 && q1 % 256 == q1 - q2 * 0x100);
    assert(q2 == q3 * 0x100 + q2 % 256);
    assert(q3 == q4 * 0x100 + q3 % 256);
    assert(q4 == q5 * 0x100 + q4 % 256);
    assert(q5 == q6 * 0x100 + q5 % 256);
    assert(q6 == q7 * 0x100 + q6 % 256);
    assert(q7 < 256);
    let bytes = be_bytes(value);
    assert(bytes[0] == q7);
    assert(bytes[1] == q6 % 256);
    assert(bytes[2] == q5 % 256);
    assert(bytes[3] == q4 % 256);
    assert(bytes[4] == q3 % 256);
    assert(bytes[5] == q2 % 256);
    assert(bytes[6] == q1 % 256);
    assert(bytes[7] == value % 256);
}

/// Only the first eight bytes count for the number that bytes spell.
pub proof fn lemma_be_u64_reads_eight(bytes: Seq<u8>, other: Seq<u8>)
    requires
        bytes.len() >= 8,
        other.len() >= 8,
        bytes.subrange(0, 8) == other.subrange(0, 8),
    ensures
        be_u64(bytes) == be_u64(other),
{
    reveal(be_u64);
    assert forall|i: int| 0 <= i < 8 implies bytes[i] == other[i] by {
        assert(bytes.subrange(0, 8)[i] == bytes[i]);
        assert(other.subrange(0, 8)[i] == other[i]);
    }
}

/// A digit stands for the number that it was made from.
pub proof fn lemma_hex_digit_round_trip(nibble: u8)
    requires
        nibble < 16,
    ensures
        hex_value(hex_digit(nibble)) == Some(nibble),
{
}

/// Hexadecimal text spells the bytes that it was made from.
pub proof fn lemma_hex_round_trip(bytes: Seq<u8>)
    ensures
        is_hex(hex_of(bytes)),
        unhex(hex_of(bytes)) == Some(bytes),
{
    let text = hex_of(bytes);
    assert forall|i: int| 0 <= i < text.len() implies hex_value(#[trigger] text[i]) is Some by {
        lemma_hex_digit_round_trip(bytes[i / 2] / 16);
        lemma_hex_digit_round_trip(bytes[i / 2] % 16);
    }
    let back = unhex(text)->Some_0;
    assert forall|i: int| 0 <= i < bytes.len() implies back[i] == bytes[i] by {
        lemma_hex_digit_round_trip(bytes[i] / 16);
        lemma_hex_digit_round_trip(bytes[i] % 16);
        assert(text[2 * i] == hex_digit(bytes[i] / 16));
        assert(text[2 * i + 1] == hex_digit(bytes[i] % 16));
    }
    assert(back =~= bytes);
}

/// What a client shows for a token is read back as that token.
pub proof fn lemma_bearer_round_trip(expires_at: u64, mac: Seq<u8>)
    requires
        mac.len() == MAC_LEN,
    ensures
        parse_bearer(bearer_of(expires_at, mac)) == Some((expires_at, mac)),
{
    let token = be_bytes(expires_at) + mac;
    let header = bearer_of(expires_at, mac);
    lemma_hex_round_trip(token);
    lemma_be_round_trip(expires_at);
    assert(header.subrange(0, 7) =~= bearer_prefix());
    assert(header.subrange(7, header.len() as int) =~= hex_of(token));
    assert(token.subrange(8, TOKEN_LEN as int) =~= mac);
    assert(token.subrange(0, 8) =~= be_bytes(expires_at).subrange(0, 8));
    lemma_be_u64_reads_eight(token, be_bytes(expires_at));
}

/// What the keyed hash covers tells the resource and the expiry apart: two
/// tokens that differ in either are hashed over different bytes.
pub proof fn lemma_token_message_is_injective(
    resource: Seq<u8>,
    expires_at: u64,
    other_resource: Seq<u8>,
    other_expires_at: u64,
)
    requires
        token_message(resource, expires_at) == token_message(other_resource, other_expires_at),
    ensures
        resource == other_resource,
        expires_at == other_expires_at,
{
    let message = token_message(resource, expires_at);
    lemma_be_round_trip(expires_at);
    lemma_be_round_trip(other_expires_at);
    assert(be_u64(be_bytes(expires_at)) == be_u64(be_bytes(other_expires_at))) by {
        assert(message.subrange(0, 8) =~= be_bytes(expires_at));
        assert(message.subrange(0, 8) =~= be_bytes(other_expires_at));
    }
    assert(message.subrange(0, 8) =~= be_bytes(expires_at));
    assert(message.subrange(0, 8) =~= be_bytes(other_expires_at));
    assert(message.subrange(8, message.len() as int) =~= resource);
    assert(message.subrange(8, message.len() as int) =~= other_resource);
}

/// The eight bytes of `value`, most significant first.
pub fn u64_to_be_bytes(value: u64) -> (bytes: Vec<u8>)
    ensures
        bytes@ == be_bytes(value),
{
    let mut bytes: Vec<u8> = Vec::new();
    bytes.push((value / 0x100_0000_0000_0000) as u8);
    bytes.push((value / 0x1_0000_0000_0000 % 256) as u8);
    bytes.push((value / 0x100_0000_0000 % 256) as u8);
    bytes.push((value / 0x1_0000_0000 % 256) as u8);
    bytes.push((value / 0x100_0000 % 256) as u8);
    bytes.push((value / 0x1_0000 % 256) as u8);
    bytes.push((value / 0x100 % 256) as u8);
    bytes.push((value % 256) as u8);
    proof {
        reveal(be_bytes);
        assert(bytes@ =~= be_bytes(value));
    }
    bytes
}

/// The number that the first eight of `bytes` spell, most significant
/// first.
fn u64_from_be_bytes(bytes: &[u8]) -> (value: u64)
    requires
        bytes@.len() >= 8,
    ensures
        value == be_u64(bytes@),
{
    proof {
        reveal(be_u64);
    }
    let mut value: u64 = 0;
    value = bytes[0] as u64 * 0x100_0000_0000_0000;
    value = value + bytes[1] as u64 * 0x1_0000_0000_0000;
    value = value + bytes[2] as u64 * 0x100_0000_0000;
    value = value + bytes[3] as u64 * 0x1_0000_0000;
    value = value + bytes[4] as u64 * 0x100_0000;
    value = value + bytes[5] as u64 * 0x1_0000;
    value = value + bytes[6] as u64 * 0x100;
    value = value + bytes[7] as u64;
    value
}

/// `bytes` in hexadecimal.
pub fn hex_encode(bytes: &[u8]) -> (text: Vec<u8>)
    ensures
        text@ == hex_of(bytes@),
{
    let mut text: Vec<u8> = Vec::new();
    let mut i: usize = 0;
    while i < bytes.len()
        invariant
            i <= bytes.len(),
            text@.len() == 2 * i,
            forall|j: int| 0 <= j < text@.len() ==> text@[j] == hex_of(bytes@)[j],
        decreases bytes.len() - i,
    {
        let byte: u8 = bytes[i];
        let high: u8 = byte / 16;
        let low: u8 = byte % 16;
        text.push(if high < 10 { 0x30 + high } else { 0x57 + high });
        text.push(if low < 10 { 0x30 + low } else { 0x57 + low });
        i = i + 1;
    }
    assert(text@ =~= hex_of(bytes@));
    text
}

/// The number below sixteen that a lower-case hexadecimal digit stands for.
fn hex_digit_value(digit: u8) -> (value: Option<u8>)
    ensures
        value == hex_value(digit),
{
    if 0x30 <= digit && digit <= 0x39 {
        Some(digit - 0x30)
    } else if 0x61 <= digit && digit <= 0x66 {
        Some(digit - 0x57)
    } else {
        None
    }
}

/// The bytes that the hexadecimal `text` spells, if it is hexadecimal.
pub fn hex_decode(text: &[u8]) -> (bytes: Option<Vec<u8>>)
    ensures
        match unhex(text@) {
            Some(spelled) => bytes is Some && bytes->Some_0@ == spelled,
            None => bytes is None,
        },
{
    if text.len() % 2 != 0 {
        return None;
    }
    let mut bytes: Vec<u8> = Vec::new();
    let mut i: usize = 0;
    while i < text.len() / 2
        invariant
            text.len() % 2 == 0,
            i <= text.len() / 2,
            bytes@.len() == i,
            forall|j: int| 0 <= j < 2 * i ==> hex_value(#[trigger] text@[j]) is Some,
            forall|j: int|
                0 <= j < i ==> #[trigger] bytes@[j] == (hex_value(text@[2 * j])->Some_0 * 16
                    + hex_value(text@[2 * j + 1])->Some_0) as u8,
        decreases text.len() / 2 - i,
    {
        let high = match hex_digit_value(text[2 * i]) {
            Some(value) => value,
            None => { return None; },
        };
        let low = match hex_digit_value(text[2 * i + 1]) {
            Some(value) => value,
            None => { return None; },
        };
        bytes.push(high * 16 + low);
        i = i + 1;
    }
    assert(is_hex(text@));
    assert(bytes@ =~= unhex(text@)->Some_0);
    Some(bytes)
}

/// What became of a token that a client showed.
#[derive(Debug, Clone, Copy, PartialEq, Eq, Structural)]
pub enum TokenStatus {
    /// The token is the server's own and its time has not passed.
    Valid,
    /// The keyed hash is not the one that the server makes.
    Invalid,
    /// The token is the server's own, but its time has passed.
    Expired,
}

/// A credential that opens one resource until its time has passed.
#[derive(Debug)]
pub struct AccessToken {
    /// The resource that the token opens.
    pub resource_id: String,
    /// The last moment at which the token is good.
    pub expires_at: u64,
    /// The keyed hash over the expiry and the resource.
    pub mac: Vec<u8>,
}

/// What a token with the keyed hash `mac` and the expiry `expires_at` is
/// worth at `now`, where the server's own keyed hash comes to `expected`.
pub open spec fn status_of(expected: Seq<u8>, mac: Seq<u8>, expires_at: u64, now: u64) -> TokenStatus {
    if mac != expected {
        TokenStatus::Invalid
    } else if now > expires_at {
        TokenStatus::Expired
    } else {
        TokenStatus::Valid
    }
}

impl AccessToken {
    /// Makes the token for `resource_id` that is good until `expires_at`.
    pub fn mint(resource_id: &str, expires_at: u64, secret: &[u8]) -> (token: AccessToken)
        ensures
            token.resource_id@ == resource_id@,
            token.expires_at == expires_at,
            token.mac@ == token_mac(secret@, encode_utf8(resource_id@), expires_at),
            token.mac@.len() == MAC_LEN,
    {
        let mut message = u64_to_be_bytes(expires_at);
        message.extend_from_slice(resource_id.as_bytes());
        assert(message@ =~= token_message(encode_utf8(resource_id@), expires_at));
        AccessToken {
            resource_id: String::from_str(resource_id),
            expires_at,
            mac: hmac_sha256_code(secret, message.as_slice()),
        }
    }

    /// What the token is worth at `now`, where the server's own keyed hash
    /// for its resource and expiry comes to `expected`.
    pub fn status_against(&self, expected: &[u8], now: u64) -> (status: TokenStatus)
        ensures
            status == status_of(expected@, self.mac@, self.expires_at, now),
    {
        if !bytes_equal(self.mac.as_slice(), expected) {
            TokenStatus::Invalid
        } else if now > self.expires_at {
            TokenStatus::Expired
        } else {
            TokenStatus::Valid
        }
    }

    /// What the token is worth at `now` to a server that makes its tokens
    /// with `secret`.
    pub fn verify(&self, now: u64, secret: &[u8]) -> (status: TokenStatus)
        ensures
            status == status_of(
                token_mac(secret@, encode_utf8(self.resource_id@), self.expires_at),
                self.mac@,
                self.expires_at,
                now,
            ),
    {
        let expected = AccessToken::mint(self.resource_id.as_str(), self.expires_at, secret);
        self.status_against(expected.mac.as_slice(), now)
    }

    /// What the client shows for this token: the word `Bearer`, then expiry
    /// and keyed hash in hexadecimal.
    pub fn to_header(&self) -> (header: Vec<u8>)
        ensures
            header@ == bearer_of(self.expires_at, self.mac@),
    {
        let mut token = u64_to_be_bytes(self.expires_at);
        token.extend_from_slice(self.mac.as_slice());
        let mut header: Vec<u8> = Vec::new();
        header.push(0x42);
        header.push(0x65);
        header.push(0x61);
        header.push(0x72);
        header.push(0x65);
        header.push(0x72);
        header.push(0x20);
        assert(header@ =~= bearer_prefix());
        let text = hex_encode(token.as_slice());
        header.extend_from_slice(text.as_slice());
        header
    }

    /// Reads the token for `resource_id` that `header` shows, if it shows
    /// one.
    pub fn from_header(header: &[u8], resource_id: &str) -> (r: Option<AccessToken>)
        ensures
            match parse_bearer(header@) {
                Some((expires_at, mac)) => r is Some && r->Some_0.resource_id@ == resource_id@
                    && r->Some_0.expires_at == expires_at && r->Some_0.mac@ == mac,
                None => r is None,
            },
    {
        if header.len() != 7 + 2 * TOKEN_LEN {
            return None;
        }
        let word = slice_subrange(header, 0, 7);
        if !(word[0] == 0x42 && word[1] == 0x65 && word[2] == 0x61 && word[3] == 0x72 && word[4]
            == 0x65 && word[5] == 0x72 && word[6] == 0x20) {
            return None;
        }
        assert(word@ =~= bearer_prefix());
        let token = match hex_decode(slice_subrange(header, 7, header.len())) {
            Some(token) => token,
            None => { return None; },
        };
        let expires_at = u64_from_be_bytes(token.as_slice());
        let mac = slice_to_vec(slice_subrange(token.as_slice(), 8, TOKEN_LEN));
        Some(AccessToken { resource_id: String::from_str(resource_id), expires_at, mac })
    }
}

} // verus!
