//! How audit details are protected before they are stored: the Base64
//! text form and the sealing of details with the logger's key.
use vstd::prelude::*;

use crate::text::{concat, owned, push_char};
use vstd::string::StringSliceAdditionalSpecFns;
use vstd::utf8::encode_utf8;

verus! {

/// The Base64 digit for a value below 64.
pub open spec fn b64_digit(v: int) -> char {
    if v < 26 {
        (('A' as int) + v) as char
    } else if v < 52 {
        (('a' as int) + (v - 26)) as char
    } else if v < 62 {
        (('0' as int) + (v - 52)) as char
    } else if v == 62 {
        '+'
    } else {
        '/'
    }
}

/// The value of a Base64 digit byte, or `None` for any other byte.
pub open spec fn b64_value(b: u8) -> Option<int> {
    if 65 <= b <= 90 {
        Some(b - 65)
    } else if 97 <= b <= 122 {
        Some(b - 71)
    } else if 48 <= b <= 57 {
        Some(b + 4)
    } else if b == 43 {
        Some(62)
    } else if b == 47 {
        Some(63)
    } else {
        None
    }
}

/// Base64 without padding: each group of three bytes becomes four digits, a
/// final group of one or two bytes becomes two or three digits.
pub open spec fn b64_encode(d: Seq<u8>) -> Seq<char>
    decreases d.len(),
{
    if d.len() == 0 {
        Seq::empty()
    } else if d.len() == 1 {
        seq![b64_digit((d[0] as int) / 4), b64_digit(((d[0] as int) % 4) * 16)]
    } else if d.len() == 2 {
        seq![
            b64_digit((d[0] as int) / 4),
            b64_digit(((d[0] as int) % 4) * 16 + (d[1] as int) / 16),
            b64_digit(((d[1] as int) % 16) * 4),
        ]
    } else {
        seq![
            b64_digit((d[0] as int) / 4),
            b64_digit(((d[0] as int) % 4) * 16 + (d[1] as int) / 16),
            b64_digit(((d[1] as int) % 16) * 4 + (d[2] as int) / 64),
            b64_digit((d[2] as int) % 64),
        ] + b64_encode(d.skip(3))
    }
}

/// The bytes of a text with every `=` removed.
pub open spec fn without_padding(b: Seq<u8>) -> Seq<u8> {
    b.filter(|x: u8| x != 61u8)
}

/// Decoding of Base64 digits read four at a time; a lone final digit or a
/// byte that is no Base64 digit makes the whole decoding fail.
pub open spec fn b64_decode(b: Seq<u8>) -> Option<Seq<u8>>
    decreases b.len(),
{
    if b.len() == 0 {
        Some(Seq::empty())
    } else if b.len() == 1 {
        None
    } else {
        match (b64_value(b[0]), b64_value(b[1])) {
            (Some(c0), Some(c1)) => {
                let first = (c0 * 4 + c1 / 16) as u8;
                if b.len() == 2 {
                    Some(seq![first])
                } else {
                    match b64_value(b[2]) {
                        Some(c2) => {
                            let second = ((c1 % 16) * 16 + c2 / 4) as u8;
                            if b.len() == 3 {
                                Some(seq![first, second])
                            } else {
                                match b64_value(b[3]) {
                                    Some(c3) => {
                                        let third = ((c2 % 4) * 64 + c3) as u8;
                                        match b64_decode(b.skip(4)) {
                                            Some(rest) => Some(seq![first, second, third] + rest),
                                            None => None,
                                        }
                                    },
                                    None => None,
                                }
                            }
                        },
                        None => None,
                    }
                }
            },
            _ => None,
        }
    }
}

/// The Base64 digit for `v < 64`.
fn digit(v: u8) -> (c: char)
    requires
        v < 64,
    ensures
        c == b64_digit(v as int),
        (c as u32) < 128,
{
    if v < 26 {
        (('A' as u8) + v) as char
    } else if v < 52 {
        (('a' as u8) + (v - 26)) as char
    } else if v < 62 {
        (('0' as u8) + (v - 52)) as char
    } else if v == 62 {
        '+'
    } else {
        '/'
    }
}

/// The value of a Base64 digit byte.
fn digit_value(b: u8) -> (r: Option<u8>)
    ensures
        match b64_value(b) {
            Some(v) => r == Some(v as u8),
            None => r is None,
        },
        r matches Some(v) ==> v < 64,
{
    if 65 <= b && b <= 90 {
        Some(b - 65)
    } else if 97 <= b && b <= 122 {
        Some(b - 71)
    } else if 48 <= b && b <= 57 {
        Some(b + 4)
    } else if b == 43 {
        Some(62)
    } else if b == 47 {
        Some(63)
    } else {
        None
    }
}

proof fn lemma_encode_skip(d: Seq<u8>, i: int)
    requires
        0 <= i,
        i % 3 == 0,
        i + 3 <= d.len(),
    ensures
        b64_encode(d.skip(i)) == seq![
            b64_digit((d[i] as int) / 4),
            b64_digit(((d[i] as int) % 4) * 16 + (d[i + 1] as int) / 16),
            b64_digit(((d[i + 1] as int) % 16) * 4 + (d[i + 2] as int) / 64),
            b64_digit((d[i + 2] as int) % 64),
        ] + b64_encode(d.skip(i + 3)),
{
    let s = d.skip(i);
    assert(s.skip(3) == d.skip(i + 3));
    assert(s[0] == d[i] && s[1] == d[i + 1] && s[2] == d[i + 2]);
}

/// Base64 text of the bytes, without padding.
pub fn base64_encode(data: &[u8]) -> (r: String)
    ensures
        r@ == b64_encode(data@),
{
    let mut result = String::new();
    let n = data.len();
    let mut i: usize = 0;
    assert(data@.skip(0) == data@);
    assert(result@ + b64_encode(data@) == b64_encode(data@));
    while i < n
        invariant
            n == data@.len(),
            i <= n,
            i % 3 == 0,
            result@ + b64_encode(data@.skip(i as int)) == b64_encode(data@),
        decreases n - i,
    {
        let b0 = data[i];
        let rem = n - i;
        let b1: u8 = if rem > 1 {
            data[i + 1]
        } else {
            0
        };
        let b2: u8 = if rem > 2 {
            data[i + 2]
        } else {
            0
        };
        let ghost before = result@;
        let ghost tail = data@.skip(i as int);
        assert(b0 >> 2 == b0 / 4 && b0 / 4 < 64) by (bit_vector);
        assert(((b0 & 0x03) << 4) | (b1 >> 4) == (b0 % 4) * 16 + b1 / 16 && (b0 % 4) * 16 + b1
            / 16 < 64) by (bit_vector);
        assert(((b1 & 0x0F) << 2) | (b2 >> 6) == (b1 % 16) * 4 + b2 / 64 && (b1 % 16) * 4 + b2
            / 64 < 64) by (bit_vector);
        assert(b2 & 0x3F == b2 % 64) by (bit_vector);
        push_char(&mut result, digit(b0 >> 2));
        push_char(&mut result, digit(((b0 & 0x03) << 4) | (b1 >> 4)));
        if rem > 1 {
            push_char(&mut result, digit(((b1 & 0x0F) << 2) | (b2 >> 6)));
        }
        if rem > 2 {
            push_char(&mut result, digit(b2 & 0x3F));
        }
        if rem > 2 {
            proof {
                lemma_encode_skip(data@, i as int);
            }
            assert(result@ + b64_encode(data@.skip(i + 3)) == before + b64_encode(tail));
            i = i + 3;
        } else {
            assert(tail.len() == rem);
            assert(tail[0] == b0);
            if rem > 1 {
                assert(tail[1] == b1);
            }
            assert(data@.skip(n as int).len() == 0);
            assert(result@ == before + b64_encode(tail));
            i = n;
            assert(i % 3 == 0 || i == n);
            assert(result@ + b64_encode(data@.skip(i as int)) == b64_encode(data@));
            return result;
        }
    }
    assert(data@.skip(n as int).len() == 0);
    result
}

/// The bytes of `input` with every `=` removed.
fn strip_padding(input: &[u8]) -> (r: Vec<u8>)
    ensures
        r@ == without_padding(input@),
{
    let mut r: Vec<u8> = Vec::new();
    let mut i: usize = 0;
    while i < input.len()
        invariant
            i <= input@.len(),
            r@ == without_padding(input@.take(i as int)),
        decreases input@.len() - i,
    {
        reveal_with_fuel(Seq::<_>::filter, 1);
        if input[i] != 61u8 {
            r.push(input[i]);
        }
        assert(input@.take(i + 1).drop_last() =~= input@.take(i as int));
        i = i + 1;
    }
    assert(input@.take(input@.len() as int) =~= input@);
    r
}

proof fn lemma_decode_skip(b: Seq<u8>, i: int)
    requires
        0 <= i,
        i + 4 < b.len() + 1,
    ensures
        b.skip(i).len() >= 4,
        b.skip(i)[0] == b[i],
        b.skip(i)[1] == b[i + 1],
        b.skip(i)[2] == b[i + 2],
        b.skip(i)[3] == b[i + 3],
        b.skip(i).skip(4) == b.skip(i + 4),
{
    assert(b.skip(i).skip(4) =~= b.skip(i + 4));
}

/// The bytes of Base64 text; `=` characters are ignored, and any other
/// character outside the Base64 alphabet, or a lone final digit, gives `None`.
pub fn base64_decode(input: &str) -> (r: Option<Vec<u8>>)
    ensures
        match b64_decode(without_padding(input.spec_bytes())) {
            Some(d) => r matches Some(v) && v@ == d,
            None => r is None,
        },
{
    let bytes = strip_padding(input.as_bytes());
    let n = bytes.len();
    let mut result: Vec<u8> = Vec::new();
    let mut i: usize = 0;
    assert(bytes@.skip(0) == bytes@);
    assert(b64_decode(bytes@) matches Some(d) ==> result@ + d == d);
    while i < n
        invariant
            n == bytes@.len(),
            bytes@ == without_padding(input.spec_bytes()),
            i <= n,
            b64_decode(bytes@) == (match b64_decode(bytes@.skip(i as int)) {
                Some(rest) => Some(result@ + rest),
                None => None,
            }),
        decreases n - i,
    {
        let rem = n - i;
        let ghost tail = bytes@.skip(i as int);
        assert(tail.len() == rem);
        assert(tail[0] == bytes@[i as int]);
        let b1: u8 = if rem > 1 {
            bytes[i + 1]
        } else {
            0
        };
        if rem > 1 {
            assert(tail[1] == b1);
        }
        let c0 = match digit_value(bytes[i]) {
            Some(v) => v,
            None => {
                assert(b64_value(tail[0]) is None);
                assert(b64_decode(tail) is None);
                return None;
            },
        };
        let c1 = match digit_value(b1) {
            Some(v) => v,
            None => {
                assert(b64_value(0u8) is None);
                assert(b64_decode(tail) is None);
                return None;
            },
        };
        assert((c0 << 2) | (c1 >> 4) == (c0 * 4 + c1 / 16) as u8) by (bit_vector)
            requires
                c0 < 64,
                c1 < 64,
        ;
        let ghost before = result@;
        result.push((c0 << 2) | (c1 >> 4));
        if rem > 2 {
            assert(tail[2] == bytes@[i + 2]);
            let c2 = match digit_value(bytes[i + 2]) {
                Some(v) => v,
                None => {
                    assert(b64_value(tail[2]) is None);
                    assert(b64_value(tail[0]) == Some(c0 as int));
                    assert(b64_value(tail[1]) == Some(c1 as int));
                    assert(b64_decode(tail) is None);
                    return None;
                },
            };
            assert(((c1 & 0x0F) << 4) | (c2 >> 2) == ((c1 % 16) * 16 + c2 / 4) as u8) by (
            bit_vector)
                requires
                    c1 < 64,
                    c2 < 64,
            ;
            result.push(((c1 & 0x0F) << 4) | (c2 >> 2));
            if rem > 3 {
                assert(tail[3] == bytes@[i + 3]);
                let c3 = match digit_value(bytes[i + 3]) {
                    Some(v) => v,
                    None => {
                        assert(b64_decode(tail) is None);
                        return None;
                    },
                };
                assert(((c2 & 0x03) << 6) | c3 == ((c2 % 4) * 64 + c3) as u8) by (bit_vector)
                    requires
                        c2 < 64,
                        c3 < 64,
                ;
                result.push(((c2 & 0x03) << 6) | c3);
                proof {
                    lemma_decode_skip(bytes@, i as int);
                    let first = (c0 * 4 + c1 / 16) as u8;
                    let second = ((c1 % 16) * 16 + c2 / 4) as u8;
                    let third = ((c2 % 4) * 64 + c3) as u8;
                    assert(result@ == before + seq![first, second, third]);
                    match b64_decode(bytes@.skip(i + 4)) {
                        Some(rest) => {
                            assert(b64_decode(tail) == Some(seq![first, second, third] + rest));
                            assert(before + (seq![first, second, third] + rest) == result@
                                + rest);
                        },
                        None => {},
                    }
                }
                i = i + 4;
            } else {
                assert(bytes@.skip(n as int).len() == 0);
                assert(b64_decode(bytes@.skip(n as int)) == Some(Seq::<u8>::empty()));
                assert(result@ + Seq::<u8>::empty() == result@);
                i = n;
            }
        } else {
            assert(bytes@.skip(n as int).len() == 0);
            assert(result@ + Seq::<u8>::empty() == result@);
            i = n;
        }
    }
    assert(bytes@.skip(n as int).len() == 0);
    assert(result@ + Seq::<u8>::empty() == result@);
    Some(result)
}

/// The bytes of a text of ASCII characters, one per character.
pub open spec fn ascii_bytes(s: Seq<char>) -> Seq<u8> {
    s.map_values(|c: char| c as u8)
}

proof fn lemma_digit_value(v: int)
    requires
        0 <= v < 64,
    ensures
        (b64_digit(v) as u32) < 128,
        b64_value(b64_digit(v) as u8) == Some(v),
        b64_digit(v) as u8 != 61u8,
{
}

proof fn lemma_group_round_trip(b0: u8, b1: u8, b2: u8)
    ensures
        (b0 as int) / 4 * 4 + (((b0 as int) % 4) * 16 + (b1 as int) / 16) / 16 == b0,
        ((((b0 as int) % 4) * 16 + (b1 as int) / 16) % 16) * 16 + (((b1 as int) % 16) * 4
            + (b2 as int) / 64) / 4 == b1,
        ((((b1 as int) % 16) * 4 + (b2 as int) / 64) % 4) * 64 + (b2 as int) % 64 == b2,
        (((b0 as int) % 4) * 16 + (b1 as int) / 16) < 64,
        (((b1 as int) % 16) * 4 + (b2 as int) / 64) < 64,
{
}

/// `c` is one of the 64 Base64 digits.
pub open spec fn is_b64_digit(c: char) -> bool {
    exists|v: int| 0 <= v < 64 && c == #[trigger] b64_digit(v)
}

proof fn lemma_encoded_digits(data: Seq<u8>)
    ensures
        forall|i: int| 0 <= i < b64_encode(data).len() ==> is_b64_digit(#[trigger] b64_encode(data)[i]),
    decreases data.len(),
{
    let e = b64_encode(data);
    if data.len() >= 3 {
        lemma_encoded_digits(data.skip(3));
        lemma_group_round_trip(data[0], data[1], data[2]);
        let head = seq![
            b64_digit((data[0] as int) / 4),
            b64_digit(((data[0] as int) % 4) * 16 + (data[1] as int) / 16),
            b64_digit(((data[1] as int) % 16) * 4 + (data[2] as int) / 64),
            b64_digit((data[2] as int) % 64),
        ];
        assert forall|i: int| 0 <= i < e.len() implies is_b64_digit(#[trigger] e[i]) by {
            if i < 4 {
                if i == 0 {
                    assert(e[i] == b64_digit((data[0] as int) / 4));
                } else if i == 1 {
                    assert(e[i] == b64_digit(((data[0] as int) % 4) * 16 + (data[1] as int) / 16));
                } else if i == 2 {
                    assert(e[i] == b64_digit(((data[1] as int) % 16) * 4 + (data[2] as int) / 64));
                } else {
                    assert(e[i] == b64_digit((data[2] as int) % 64));
                }
            } else {
                assert(e[i] == b64_encode(data.skip(3))[i - 4]);
                assert(is_b64_digit(b64_encode(data.skip(3))[i - 4]));
            }
        }
    } else if data.len() == 2 {
        lemma_group_round_trip(data[0], data[1], 0);
        assert(e[0] == b64_digit((data[0] as int) / 4));
        assert(e[1] == b64_digit(((data[0] as int) % 4) * 16 + (data[1] as int) / 16));
        assert(e[2] == b64_digit(((data[1] as int) % 16) * 4));
    } else if data.len() == 1 {
        assert(e[0] == b64_digit((data[0] as int) / 4));
        assert(e[1] == b64_digit(((data[0] as int) % 4) * 16));
    }
}

proof fn lemma_filter_keeps_all(s: Seq<u8>)
    requires
        forall|i: int| 0 <= i < s.len() ==> s[i] != 61u8,
    ensures
        without_padding(s) == s,
    decreases s.len(),
{
    reveal_with_fuel(Seq::<_>::filter, 1);
    if s.len() > 0 {
        lemma_filter_keeps_all(s.drop_last());
        assert(s.drop_last().push(s.last()) == s);
    }
}

proof fn lemma_decode_encoded(data: Seq<u8>)
    ensures
        b64_decode(ascii_bytes(b64_encode(data))) == Some(data),
    decreases data.len(),
{
    let e = b64_encode(data);
    let b = ascii_bytes(e);
    if data.len() >= 3 {
        let (b0, b1, b2) = (data[0], data[1], data[2]);
        lemma_group_round_trip(b0, b1, b2);
        let v0 = (b0 as int) / 4;
        let v1 = ((b0 as int) % 4) * 16 + (b1 as int) / 16;
        let v2 = ((b1 as int) % 16) * 4 + (b2 as int) / 64;
        let v3 = (b2 as int) % 64;
        lemma_digit_value(v0);
        lemma_digit_value(v1);
        lemma_digit_value(v2);
        lemma_digit_value(v3);
        lemma_decode_encoded(data.skip(3));
        assert(b[0] == b64_digit(v0) as u8);
        assert(b[1] == b64_digit(v1) as u8);
        assert(b[2] == b64_digit(v2) as u8);
        assert(b[3] == b64_digit(v3) as u8);
        assert(b.skip(4) =~= ascii_bytes(b64_encode(data.skip(3))));
        assert(seq![b0, b1, b2] + data.skip(3) =~= data);
    } else if data.len() == 2 {
        let (b0, b1) = (data[0], data[1]);
        lemma_group_round_trip(b0, b1, 0);
        lemma_digit_value((b0 as int) / 4);
        lemma_digit_value(((b0 as int) % 4) * 16 + (b1 as int) / 16);
        lemma_digit_value(((b1 as int) % 16) * 4);
        assert(b[0] == b64_digit((b0 as int) / 4) as u8);
        assert(b[1] == b64_digit(((b0 as int) % 4) * 16 + (b1 as int) / 16) as u8);
        assert(b[2] == b64_digit(((b1 as int) % 16) * 4) as u8);
        assert(seq![b0, b1] =~= data);
    } else if data.len() == 1 {
        let b0 = data[0];
        lemma_group_round_trip(b0, 0, 0);
        lemma_digit_value((b0 as int) / 4);
        lemma_digit_value(((b0 as int) % 4) * 16);
        assert(b[0] == b64_digit((b0 as int) / 4) as u8);
        assert(b[1] == b64_digit(((b0 as int) % 4) * 16) as u8);
        assert(seq![b0] =~= data);
    } else {
        assert(b.len() == 0);
        assert(data =~= Seq::<u8>::empty());
    }
}

/// Base64 decoding undoes Base64 encoding: for every byte sequence, decoding
/// the text that `base64_encode` makes gives the bytes back.
pub proof fn lemma_base64_round_trip(data: Seq<u8>)
    ensures
        b64_decode(without_padding(vstd::utf8::encode_utf8(b64_encode(data)))) == Some(data),
{
    let e = b64_encode(data);
    lemma_encoded_digits(data);
    assert forall|i: int| 0 <= i < e.len() implies '\0' <= #[trigger] e[i] <= '\u{7f}' by {
        let v = choose|v: int| 0 <= v < 64 && e[i] == b64_digit(v);
        lemma_digit_value(v);
    }
    assert(vstd::utf8::is_ascii_chars(e));
    vstd::utf8::is_ascii_chars_encode_utf8(e);
    let bytes = vstd::utf8::encode_utf8(e);
    assert(bytes =~= ascii_bytes(e));
    assert forall|i: int| 0 <= i < bytes.len() implies bytes[i] != 61u8 by {
        let v = choose|v: int| 0 <= v < 64 && e[i] == b64_digit(v);
        lemma_digit_value(v);
    }
    lemma_filter_keeps_all(bytes);
    lemma_decode_encoded(data);
}

/// The longest plaintext AES-GCM seals: 2^36 bytes.
pub const SEAL_LIMIT: u64 = 0x10_0000_0000;

/// The seed the audit key is derived from.
pub const AUDIT_KEY_SEED: &'static str = "cdrive-cleaner-audit-key";

/// A stored audit record as the user reads it.
#[derive(Debug)]
pub struct AuditLogEntry {
    pub id: String,
    pub action: String,
    pub target_path: String,
    pub detail: String,
    pub risk_level: String,
    pub timestamp: String,
}

/// What goes into the audit table for one operation, besides its id and
/// time: the action, the path, the sealed detail, the risk, and the flag
/// that the detail is sealed.
#[derive(Debug)]
pub struct AuditRecord {
    pub action: String,
    pub target_path: String,
    pub detail: String,
    pub risk_level: String,
    pub encrypted: i32,
}

/// Seals audit details with a key derived from a fixed seed.
#[derive(Debug, Clone)]
pub struct AuditLogger {
    encryption_key: Vec<u8>,
}

/// The AES-256-GCM ciphertext (tag appended) of `pt` under `key` and
/// `nonce`, with no associated data.
pub uninterp spec fn gcm_seal(key: Seq<u8>, nonce: Seq<u8>, pt: Seq<u8>) -> Seq<u8>;

/// The plaintext AES-256-GCM recovers from `ct` under `key` and `nonce`,
/// with no associated data; `None` when the tag does not check.
pub uninterp spec fn gcm_open(key: Seq<u8>, nonce: Seq<u8>, ct: Seq<u8>) -> Option<Seq<u8>>;

/// The hash `DefaultHasher::new()` gives a string.
pub uninterp spec fn default_hash(s: Seq<char>) -> u64;

/// The text `String::from_utf8_lossy` makes of bytes.
pub uninterp spec fn utf8_lossy_text(b: Seq<u8>) -> Seq<char>;

/// Seals with `aes_gcm::Aes256Gcm::encrypt`. The crate's source fails only
/// for a plaintext over 2^36 bytes, appends a 16-byte tag, and its
/// decryption with the same key and nonce gives the plaintext back.
#[verifier::external_body]
fn seal(key: &[u8], nonce: &[u8], pt: &[u8]) -> (r: Option<Vec<u8>>)
    requires
        key@.len() == 32,
        nonce@.len() == 12,
    ensures
        pt@.len() <= SEAL_LIMIT <==> r is Some,
        r matches Some(c) ==> c@ == gcm_seal(key@, nonce@, pt@) && c@.len() == pt@.len() + 16
            && gcm_open(key@, nonce@, c@) == Some(pt@),
{
    let cipher = <aes_gcm::Aes256Gcm as aes_gcm::KeyInit>::new(aes_gcm::Key::<aes_gcm::Aes256Gcm>::from_slice(key));
    aes_gcm::aead::Aead::encrypt(&cipher, aes_gcm::Nonce::from_slice(nonce), pt).ok()
}

/// Opens with `aes_gcm::Aes256Gcm::decrypt`; the result is named
/// `gcm_open` of the key, nonce and ciphertext.
#[verifier::external_body]
fn open(key: &[u8], nonce: &[u8], ct: &[u8]) -> (r: Option<Vec<u8>>)
    requires
        key@.len() == 32,
        nonce@.len() == 12,
    ensures
        match r {
            Some(p) => gcm_open(key@, nonce@, ct@) == Some(p@),
            None => gcm_open(key@, nonce@, ct@) is None,
        },
{
    let cipher = <aes_gcm::Aes256Gcm as aes_gcm::KeyInit>::new(aes_gcm::Key::<aes_gcm::Aes256Gcm>::from_slice(key));
    aes_gcm::aead::Aead::decrypt(&cipher, aes_gcm::Nonce::from_slice(nonce), ct).ok()
}

/// Hashes a string with a new `std::collections::hash_map::DefaultHasher`
/// (`Hash::hash`, then `Hasher::finish`); the result is named
/// `default_hash` of the string.
#[verifier::external_body]
fn hash_text(s: &str) -> (r: u64)
    ensures
        r == default_hash(s@),
{
    let mut h = std::collections::hash_map::DefaultHasher::new();
    std::hash::Hash::hash(s, &mut h);
    std::hash::Hasher::finish(&h)
}

/// Decodes bytes with `String::from_utf8_lossy`; bytes that are the UTF-8
/// encoding of a text give that text back, as its documentation says.
#[verifier::external_body]
fn decode_utf8_lossy(b: &[u8]) -> (r: String)
    ensures
        r@ == utf8_lossy_text(b@),
        forall|s: Seq<char>| b@ == encode_utf8(s) ==> r@ == s,
{
    String::from_utf8_lossy(b).to_string()
}

/// The `n` low bytes of `h`, least significant first.
pub open spec fn le_bytes(h: nat, n: nat) -> Seq<u8>
    decreases n,
{
    if n == 0 {
        Seq::empty()
    } else {
        seq![(h % 256) as u8] + le_bytes(h / 256, (n - 1) as nat)
    }
}

/// The audit key derived from a seed: the hash of the seed and the hash of
/// the seed with `"-salt"` appended, each little-endian, then each
/// big-endian.
pub open spec fn derived_key(seed: Seq<char>) -> Seq<u8> {
    let h1 = default_hash(seed) as nat;
    let h2 = default_hash(seed + "-salt"@) as nat;
    le_bytes(h1, 8) + le_bytes(h2, 8) + le_bytes(h1, 8).reverse() + le_bytes(h2, 8).reverse()
}

/// The stored form of a detail: the Base64 text of the nonce followed by
/// the ciphertext, or the detail itself when it is too long to seal.
pub open spec fn sealed_text(key: Seq<u8>, nonce: Seq<u8>, data: Seq<char>) -> Seq<char> {
    let pt = encode_utf8(data);
    if pt.len() <= SEAL_LIMIT {
        b64_encode(nonce + gcm_seal(key, nonce, pt))
    } else {
        data
    }
}

/// The bytes a stored detail opens to: its Base64 payload split after 12
/// nonce bytes and opened; `None` when it is no Base64, too short, or does
/// not open.
pub open spec fn opened_bytes(key: Seq<u8>, text: Seq<char>) -> Option<Seq<u8>> {
    match b64_decode(without_padding(encode_utf8(text))) {
        Some(p) => if p.len() > 12 {
            gcm_open(key, p.take(12), p.skip(12))
        } else {
            None
        },
        None => None,
    }
}

/// What a stored detail reads as: the opened bytes as text, or the stored
/// text itself when it does not open.
pub open spec fn opened_text(key: Seq<u8>, text: Seq<char>) -> Seq<char> {
    match opened_bytes(key, text) {
        Some(b) => utf8_lossy_text(b),
        None => text,
    }
}

/// The `n` low bytes of `h`, least significant first.
fn little_endian(h: u64, n: usize) -> (r: Vec<u8>)
    ensures
        r@ == le_bytes(h as nat, n as nat),
{
    let mut out: Vec<u8> = Vec::new();
    let mut v: u64 = h;
    let mut k: usize = 0;
    while k < n
        invariant
            k <= n,
            out@ + le_bytes(v as nat, (n - k) as nat) == le_bytes(h as nat, n as nat),
        decreases n - k,
    {
        let ghost prev = out@;
        let ghost rest = le_bytes(v as nat, (n - k) as nat);
        out.push((v % 256) as u8);
        proof {
            assert(rest == seq![(v % 256) as u8] + le_bytes((v / 256) as nat, (n - k - 1) as nat));
            assert(out@ + le_bytes((v / 256) as nat, (n - k - 1) as nat) =~= prev + rest);
        }
        v = v / 256;
        k = k + 1;
    }
    assert(le_bytes(v as nat, 0) =~= Seq::<u8>::empty());
    assert(out@ + Seq::<u8>::empty() =~= out@);
    out
}

/// The bytes in reverse order.
fn reversed(v: &Vec<u8>) -> (r: Vec<u8>)
    ensures
        r@ == v@.reverse(),
{
    let mut out: Vec<u8> = Vec::new();
    let mut i: usize = v.len();
    while i > 0
        invariant
            i <= v@.len(),
            out@ == v@.subrange(i as int, v@.len() as int).reverse(),
        decreases i,
    {
        i = i - 1;
        out.push(v[i]);
        assert(out@ =~= v@.subrange(i as int, v@.len() as int).reverse());
    }
    assert(v@.subrange(0, v@.len() as int) == v@);
    out
}

/// `a` followed by `b`.
fn joined_bytes(a: &[u8], b: &[u8]) -> (r: Vec<u8>)
    ensures
        r@ == a@ + b@,
{
    let mut out: Vec<u8> = Vec::new();
    let mut j: usize = 0;
    while j < a.len()
        invariant
            j <= a@.len(),
            out@ == a@.take(j as int),
        decreases a@.len() - j,
    {
        out.push(a[j]);
        j = j + 1;
        assert(out@ =~= a@.take(j as int));
    }
    assert(out@ =~= a@);
    let mut i: usize = 0;
    while i < b.len()
        invariant
            i <= b@.len(),
            out@ == a@ + b@.take(i as int),
        decreases b@.len() - i,
    {
        out.push(b[i]);
        i = i + 1;
        assert(out@ =~= a@ + b@.take(i as int));
    }
    assert(b@.take(b@.len() as int) == b@);
    out
}

/// The bytes from `start` up to `end`.
fn byte_range(b: &Vec<u8>, start: usize, end: usize) -> (r: Vec<u8>)
    requires
        start <= end <= b@.len(),
    ensures
        r@ == b@.subrange(start as int, end as int),
{
    let mut out: Vec<u8> = Vec::new();
    let mut i: usize = start;
    while i < end
        invariant
            start <= i <= end <= b@.len(),
            out@ == b@.subrange(start as int, i as int),
        decreases end - i,
    {
        out.push(b[i]);
        i = i + 1;
        assert(out@ =~= b@.subrange(start as int, i as int));
    }
    out
}

impl AuditLogger {
    /// The sealing key.
    pub closed spec fn key(&self) -> Seq<u8> {
        self.encryption_key@
    }

    /// The audit key derived from a seed.
    pub fn derive_key(seed: &str) -> (r: Vec<u8>)
        ensures
            r@ == derived_key(seed@),
            r@.len() == 32,
    {
        let h1 = hash_text(seed);
        let salted = concat(seed, "-salt");
        let h2 = hash_text(salted.as_str());
        let a = little_endian(h1, 8);
        let b = little_endian(h2, 8);
        let c = reversed(&a);
        let d = reversed(&b);
        let ab = joined_bytes(a.as_slice(), b.as_slice());
        let abc = joined_bytes(ab.as_slice(), c.as_slice());
        let key = joined_bytes(abc.as_slice(), d.as_slice());
        proof {
            lemma_le_bytes_len(h1 as nat, 8);
            lemma_le_bytes_len(h2 as nat, 8);
        }
        key
    }

    /// A logger whose key is derived from the fixed audit seed.
    pub fn new() -> (r: Self)
        ensures
            r.key() == derived_key(AUDIT_KEY_SEED@),
            r.key().len() == 32,
    {
        AuditLogger { encryption_key: Self::derive_key(AUDIT_KEY_SEED) }
    }

    /// The stored form of a detail, sealed with this nonce; a detail too
    /// long to seal is stored as it is. A sealed detail opens to its own
    /// bytes.
    pub fn encrypt_if_needed(&self, data: &str, nonce: &[u8]) -> (r: String)
        requires
            self.key().len() == 32,
            nonce@.len() == 12,
        ensures
            r@ == sealed_text(self.key(), nonce@, data@),
            encode_utf8(data@).len() <= SEAL_LIMIT ==> opened_bytes(self.key(), r@) == Some(
                encode_utf8(data@),
            ),
    {
        let pt = data.as_bytes();
        match seal(self.encryption_key.as_slice(), nonce, pt) {
            Some(c) => {
                let payload = joined_bytes(nonce, c.as_slice());
                let text = base64_encode(payload.as_slice());
                proof {
                    lemma_base64_round_trip(payload@);
                    assert(payload@.take(12) =~= nonce@);
                    assert(payload@.skip(12) =~= c@);
                }
                text
            },
            None => owned(data),
        }
    }

    /// What a stored detail reads as: opened when it is a sealed detail,
    /// else the stored text itself.
    pub fn decrypt_if_needed(&self, data: &str) -> (r: String)
        requires
            self.key().len() == 32,
        ensures
            r@ == opened_text(self.key(), data@),
            opened_bytes(self.key(), data@) matches Some(b) ==> forall|s: Seq<char>|
                b == encode_utf8(s) ==> r@ == s,
    {
        match base64_decode(data) {
            Some(payload) => {
                if payload.len() > 12 {
                    let nonce = byte_range(&payload, 0, 12);
                    let ct = byte_range(&payload, 12, payload.len());
                    assert(nonce@ =~= payload@.take(12));
                    assert(ct@ =~= payload@.skip(12));
                    match open(self.encryption_key.as_slice(), nonce.as_slice(), ct.as_slice()) {
                        Some(pt) => decode_utf8_lossy(pt.as_slice()),
                        None => owned(data),
                    }
                } else {
                    owned(data)
                }
            },
            None => owned(data),
        }
    }

    /// The audit record of an operation: the detail (empty when none) sealed
    /// with this nonce, the risk (empty when none), marked sealed.
    pub fn log_record(
        &self,
        action: &str,
        target_path: &str,
        detail: Option<&str>,
        risk_level: Option<&str>,
        nonce: &[u8],
    ) -> (r: AuditRecord)
        requires
            self.key().len() == 32,
            nonce@.len() == 12,
        ensures
            r.action@ == action@,
            r.target_path@ == target_path@,
            r.detail@ == sealed_text(
                self.key(),
                nonce@,
                match detail {
                    Some(d) => d@,
                    None => Seq::empty(),
                },
            ),
            r.risk_level@ == (match risk_level {
                Some(k) => k@,
                None => Seq::empty(),
            }),
            r.encrypted == 1,
    {
        let d = match detail {
            Some(d) => d,
            None => "",
        };
        proof {
            reveal_strlit("");
        }
        AuditRecord {
            action: owned(action),
            target_path: owned(target_path),
            detail: self.encrypt_if_needed(d, nonce),
            risk_level: match risk_level {
                Some(k) => owned(k),
                None => String::new(),
            },
            encrypted: 1,
        }
    }

    /// An audit entry from a stored row: the detail opened when the row is
    /// marked sealed, else taken as stored.
    pub fn row_to_entry(
        &self,
        id: String,
        action: String,
        target_path: String,
        detail_raw: String,
        risk_level: String,
        timestamp: String,
        is_encrypted: i32,
    ) -> (r: AuditLogEntry)
        requires
            self.key().len() == 32,
        ensures
            r.id == id,
            r.action == action,
            r.target_path == target_path,
            r.detail@ == (if is_encrypted != 0 {
                opened_text(self.key(), detail_raw@)
            } else {
                detail_raw@
            }),
            r.risk_level == risk_level,
            r.timestamp == timestamp,
    {
        let detail = if is_encrypted != 0 {
            self.decrypt_if_needed(detail_raw.as_str())
        } else {
            detail_raw
        };
        AuditLogEntry { id, action, target_path, detail, risk_level, timestamp }
    }

    /// The query for audit entries, newest first, with or without an
    /// action filter.
    pub fn query_sql(action_filter: bool) -> (r: &'static str)
        ensures
            action_filter ==> r@
                == "SELECT id, action, target_path, detail, risk_level, timestamp, encrypted FROM audit_log WHERE action = ?1 ORDER BY timestamp DESC LIMIT ?2 OFFSET ?3"@,
            !action_filter ==> r@
                == "SELECT id, action, target_path, detail, risk_level, timestamp, encrypted FROM audit_log ORDER BY timestamp DESC LIMIT ?2 OFFSET ?3"@,
    {
        if action_filter {
            "SELECT id, action, target_path, detail, risk_level, timestamp, encrypted FROM audit_log WHERE action = ?1 ORDER BY timestamp DESC LIMIT ?2 OFFSET ?3"
        } else {
            "SELECT id, action, target_path, detail, risk_level, timestamp, encrypted FROM audit_log ORDER BY timestamp DESC LIMIT ?2 OFFSET ?3"
        }
    }
}

proof fn lemma_le_bytes_len(h: nat, n: nat)
    ensures
        le_bytes(h, n).len() == n,
    decreases n,
{
    if n > 0 {
        lemma_le_bytes_len(h / 256, (n - 1) as nat);
    }
}

} // verus!
