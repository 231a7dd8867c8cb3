//! Random identity generator: 64-character hex machine ids, UUID strings,
//! brace-wrapped upper-case SQM ids, and MAC addresses that avoid a small
//! blocklist of known-invalid addresses.

use vstd::prelude::*;

use crate::textops::{ascii_upper, upper_seq};
use rand::Rng;

verus! {

/// The lower-case hex digit for a value below 16.
pub open spec fn hex_digit(n: int) -> char {
    if n == 0 { '0' } else if n == 1 { '1' } else if n == 2 { '2' } else if n == 3 { '3' }
    else if n == 4 { '4' } else if n == 5 { '5' } else if n == 6 { '6' } else if n == 7 { '7' }
    else if n == 8 { '8' } else if n == 9 { '9' } else if n == 10 { 'a' } else if n == 11 { 'b' }
    else if n == 12 { 'c' } else if n == 13 { 'd' } else if n == 14 { 'e' } else { 'f' }
}

/// The two lower-case hex digits of one byte.
pub open spec fn byte_hex(b: u8) -> Seq<char> {
    seq![hex_digit(b as int / 16), hex_digit(b as int % 16)]
}

/// The lower-case hex rendering of a byte sequence, two digits per byte.
pub open spec fn bytes_hex(bs: Seq<u8>) -> Seq<char>
    decreases bs.len(),
{
    if bs.len() == 0 {
        Seq::empty()
    } else {
        bytes_hex(bs.drop_last()) + byte_hex(bs.last())
    }
}

pub open spec fn is_lower_hex_char(c: char) -> bool {
    ('0' <= c && c <= '9') || ('a' <= c && c <= 'f')
}

pub open spec fn is_upper_hex_char(c: char) -> bool {
    ('0' <= c && c <= '9') || ('A' <= c && c <= 'F')
}

/// Shape of a machine id: exactly 64 lower-case hex characters.
pub open spec fn is_machine_id_seq(s: Seq<char>) -> bool {
    s.len() == 64 && forall|i: int| 0 <= i < s.len() ==> is_lower_hex_char(#[trigger] s[i])
}

/// Shape of a hyphenated lower-case UUID string.
pub open spec fn is_uuid_seq(s: Seq<char>) -> bool {
    &&& s.len() == 36
    &&& forall|i: int|
        0 <= i < 36 ==> if i == 8 || i == 13 || i == 18 || i == 23 {
            #[trigger] s[i] == '-'
        } else {
            is_lower_hex_char(s[i])
        }
}

/// Shape of a hyphenated upper-case UUID string.
pub open spec fn is_uuid_upper_seq(s: Seq<char>) -> bool {
    &&& s.len() == 36
    &&& forall|i: int|
        0 <= i < 36 ==> if i == 8 || i == 13 || i == 18 || i == 23 {
            #[trigger] s[i] == '-'
        } else {
            is_upper_hex_char(s[i])
        }
}

/// Shape of an SQM id: a brace-wrapped upper-case UUID.
pub open spec fn is_sqm_id_seq(s: Seq<char>) -> bool {
    &&& s.len() == 38
    &&& s[0] == '{'
    &&& s[37] == '}'
    &&& is_uuid_upper_seq(s.subrange(1, 37))
}

fn hex_digit_char(n: u8) -> (c: char)
    requires
        n < 16,
    ensures
        c == hex_digit(n as int),
{
    match n {
        0 => '0', 1 => '1', 2 => '2', 3 => '3', 4 => '4', 5 => '5', 6 => '6', 7 => '7',
        8 => '8', 9 => '9', 10 => 'a', 11 => 'b', 12 => 'c', 13 => 'd', 14 => 'e', _ => 'f',
    }
}

proof fn lemma_byte_hex_is_hex(b: u8)
    ensures
        forall|i: int| 0 <= i < 2 ==> is_lower_hex_char(#[trigger] byte_hex(b)[i]),
{
}

proof fn lemma_bytes_hex_shape(bs: Seq<u8>)
    ensures
        bytes_hex(bs).len() == 2 * bs.len(),
        forall|i: int| 0 <= i < bytes_hex(bs).len() ==> is_lower_hex_char(#[trigger] bytes_hex(bs)[i]),
    decreases bs.len(),
{
    if bs.len() > 0 {
        lemma_bytes_hex_shape(bs.drop_last());
        lemma_byte_hex_is_hex(bs.last());
    }
}

/// Renders a byte vector as lower-case hex, two digits per byte.
pub fn hex_encode(bytes: &Vec<u8>) -> (s: String)
    requires
        bytes@.len() <= usize::MAX / 2,
    ensures
        s@ == bytes_hex(bytes@),
{
    let mut out = String::new();
    let mut i: usize = 0;
    while i < bytes.len()
        invariant
            0 <= i <= bytes@.len(),
            bytes@.len() <= usize::MAX / 2,
            out@ == bytes_hex(bytes@.take(i as int)),
        decreases bytes@.len() - i,
    {
        let b = bytes[i];
        out.push(hex_digit_char(b / 16));
        out.push(hex_digit_char(b % 16));
        proof {
            assert(bytes@.take(i + 1).drop_last() =~= bytes@.take(i as int));
            assert(bytes@.take(i + 1).last() == bytes@[i as int]);
        }
        i += 1;
    }
    proof {
        assert(bytes@.take(bytes@.len() as int) =~= bytes@);
    }
    out
}

/// Relies on rand::rng and rand::Rng::fill_bytes: fills a buffer of the
/// requested length with random bytes; nothing is promised of their values.
#[verifier::external_body]
fn random_bytes(n: usize) -> (r: Vec<u8>)
    ensures
        r@.len() == n,
{
    let mut v = vec![0u8; n];
    rand::rng().fill_bytes(&mut v);
    v
}

/// Relies on uuid::Uuid::new_v4 and the Display impl of Uuid: a random
/// version-4 UUID rendered in hyphenated lower-case form, so the digit
/// after the second hyphen — position 14 — is the version nibble '4'.
#[verifier::external_body]
fn uuid_v4_string() -> (r: String)
    ensures
        is_uuid_seq(r@),
        r@[14] == '4',
{
    uuid::Uuid::new_v4().to_string()
}

/// A fresh 64-character lower-case hex string drawn from 32 random bytes.
pub fn generate_hex_string() -> (r: String)
    ensures
        is_machine_id_seq(r@),
{
    let bytes = random_bytes(32);
    let s = hex_encode(&bytes);
    proof {
        lemma_bytes_hex_shape(bytes@);
    }
    s
}

/// A fresh machine id: 64 lower-case hex characters.
pub fn generate_machine_id() -> (r: String)
    ensures
        is_machine_id_seq(r@),
{
    generate_hex_string()
}

/// A fresh random UUID string, version nibble included.
pub fn generate_uuid() -> (r: String)
    ensures
        is_uuid_seq(r@),
        r@[14] == '4',
{
    uuid_v4_string()
}

proof fn lemma_upper_of_uuid(s: Seq<char>)
    requires
        is_uuid_seq(s),
    ensures
        is_uuid_upper_seq(upper_seq(s)),
{
    assert forall|i: int| 0 <= i < 36 implies if i == 8 || i == 13 || i == 18 || i == 23 {
        #[trigger] upper_seq(s)[i] == '-'
    } else {
        is_upper_hex_char(upper_seq(s)[i])
    } by {
        assert(upper_seq(s)[i] == crate::textops::upper_char(s[i]));
    }
}

/// A fresh SQM id: a freshly generated UUID, upper-cased and wrapped in
/// braces.
pub fn generate_sqm_id() -> (r: String)
    ensures
        is_sqm_id_seq(r@),
        r@[15] == '4',
{
    let u = generate_uuid();
    let upper = ascii_upper(u.as_str());
    let mut out = String::new();
    out.push('{');
    out.append(upper.as_str());
    out.push('}');
    proof {
        lemma_upper_of_uuid(u@);
        assert(out@.subrange(1, 37) =~= upper_seq(u@));
        assert(out@[15] == upper_seq(u@)[14]);
        assert(upper_seq(u@)[14] == crate::textops::upper_char(u@[14]));
    }
    out
}

/// Shape of a MAC address: six upper-case hex byte groups joined by colons.
pub open spec fn is_mac_seq(s: Seq<char>) -> bool {
    &&& s.len() == 17
    &&& forall|i: int|
        0 <= i < 17 ==> if i % 3 == 2 {
            #[trigger] s[i] == ':'
        } else {
            is_upper_hex_char(s[i])
        }
}

/// The blocklisted MAC addresses that must never be produced, in both
/// the lower-case form the list is usually written in and the upper-case
/// form this generator renders.
pub open spec fn is_blocked_mac(s: Seq<char>) -> bool {
    ||| s == "00:00:00:00:00:00"@
    ||| s == "ff:ff:ff:ff:ff:ff"@
    ||| s == "FF:FF:FF:FF:FF:FF"@
    ||| s == "ac:de:48:00:11:22"@
    ||| s == "AC:DE:48:00:11:22"@
}

/// The upper-case hex digit for a value below 16.
pub open spec fn hex_digit_upper(n: int) -> char {
    if n == 0 { '0' } else if n == 1 { '1' } else if n == 2 { '2' } else if n == 3 { '3' }
    else if n == 4 { '4' } else if n == 5 { '5' } else if n == 6 { '6' } else if n == 7 { '7' }
    else if n == 8 { '8' } else if n == 9 { '9' } else if n == 10 { 'A' } else if n == 11 { 'B' }
    else if n == 12 { 'C' } else if n == 13 { 'D' } else if n == 14 { 'E' } else { 'F' }
}

fn hex_digit_char_upper(n: u8) -> (c: char)
    requires
        n < 16,
    ensures
        c == hex_digit_upper(n as int),
{
    match n {
        0 => '0', 1 => '1', 2 => '2', 3 => '3', 4 => '4', 5 => '5', 6 => '6', 7 => '7',
        8 => '8', 9 => '9', 10 => 'A', 11 => 'B', 12 => 'C', 13 => 'D', 14 => 'E', _ => 'F',
    }
}

/// The two upper-case hex digits of one byte.
pub open spec fn byte_hex_upper(b: u8) -> Seq<char> {
    seq![hex_digit_upper(b as int / 16), hex_digit_upper(b as int % 16)]
}

/// The exact MAC rendering of six bytes: upper-case hex groups joined by
/// colons.
pub open spec fn mac_of(bs: Seq<u8>) -> Seq<char>
    recommends
        bs.len() == 6,
{
    byte_hex_upper(bs[0]) + seq![':'] + byte_hex_upper(bs[1]) + seq![':'] + byte_hex_upper(bs[2])
        + seq![':'] + byte_hex_upper(bs[3]) + seq![':'] + byte_hex_upper(bs[4]) + seq![':']
        + byte_hex_upper(bs[5])
}

proof fn lemma_mac_of_shape(bs: Seq<u8>)
    requires
        bs.len() == 6,
    ensures
        is_mac_seq(mac_of(bs)),
{
    assert forall|i: int| 0 <= i < 17 implies if i % 3 == 2 {
        #[trigger] mac_of(bs)[i] == ':'
    } else {
        is_upper_hex_char(mac_of(bs)[i])
    } by {
        assert(mac_of(bs).len() == 17);
    }
}

fn push_byte_hex(out: &mut String, b: u8)
    ensures
        final(out)@ == old(out)@ + byte_hex_upper(b),
{
    out.push(hex_digit_char_upper(b / 16));
    out.push(hex_digit_char_upper(b % 16));
    assert(out@ =~= old(out)@ + byte_hex_upper(b));
}

fn mac_from_bytes(bytes: &Vec<u8>) -> (s: String)
    requires
        bytes@.len() == 6,
    ensures
        s@ == mac_of(bytes@),
        is_mac_seq(s@),
{
    let mut out = String::new();
    push_byte_hex(&mut out, bytes[0]);
    out.push(':');
    push_byte_hex(&mut out, bytes[1]);
    out.push(':');
    push_byte_hex(&mut out, bytes[2]);
    out.push(':');
    push_byte_hex(&mut out, bytes[3]);
    out.push(':');
    push_byte_hex(&mut out, bytes[4]);
    out.push(':');
    push_byte_hex(&mut out, bytes[5]);
    proof {
        assert(out@ =~= mac_of(bytes@));
        lemma_mac_of_shape(bytes@);
    }
    out
}

/// A fresh MAC address outside the blocklist of known-invalid addresses.
pub fn generate_mac_address() -> (r: String)
    ensures
        is_mac_seq(r@),
        !is_blocked_mac(r@),
{
    let mut tries: usize = 0;
    while tries < 8
        invariant
            tries <= 8,
        decreases 8 - tries,
    {
        let bytes = random_bytes(6);
        let mac = mac_from_bytes(&bytes);
        let b1 = crate::textops::str_eq(mac.as_str(), "00:00:00:00:00:00");
        let b2 = crate::textops::str_eq(mac.as_str(), "ff:ff:ff:ff:ff:ff");
        let b3 = crate::textops::str_eq(mac.as_str(), "FF:FF:FF:FF:FF:FF");
        let b4 = crate::textops::str_eq(mac.as_str(), "ac:de:48:00:11:22");
        let b5 = crate::textops::str_eq(mac.as_str(), "AC:DE:48:00:11:22");
        if !b1 && !b2 && !b3 && !b4 && !b5 {
            return mac;
        }
        tries += 1;
    }
    // Random draws kept hitting the blocklist; fall back to a fixed locally
    // administered address that provably is not blocked.
    let mut fb: Vec<u8> = Vec::new();
    fb.push(0x02);
    fb.push(0x00);
    fb.push(0x00);
    fb.push(0x00);
    fb.push(0x00);
    fb.push(0x01);
    let mac = mac_from_bytes(&fb);
    proof {
        reveal_strlit("00:00:00:00:00:00");
        reveal_strlit("ff:ff:ff:ff:ff:ff");
        reveal_strlit("FF:FF:FF:FF:FF:FF");
        reveal_strlit("ac:de:48:00:11:22");
        reveal_strlit("AC:DE:48:00:11:22");
        assert(mac@[1] == '2');
        assert("00:00:00:00:00:00"@[1] == '0');
        assert("ff:ff:ff:ff:ff:ff"@[1] == 'f');
        assert("FF:FF:FF:FF:FF:FF"@[1] == 'F');
        assert("ac:de:48:00:11:22"@[1] == 'c');
        assert("AC:DE:48:00:11:22"@[1] == 'C');
    }
    mac
}

} // verus!
