use vstd::prelude::*;
use vstd::string::StrSliceExecFns;
use crate::error::RepoError;

verus! {

/// Number of bytes in a store-native identifier.
pub const ID_BYTE_LEN: usize = 12;

/// Number of characters in the hexadecimal form of an identifier.
pub const ID_HEX_LEN: usize = 24;

/// The character is a hexadecimal digit, in either case.
pub open spec fn is_hex_digit(c: char) -> bool {
    (48 <= c as u32 && c as u32 <= 57)  // '0' ..= '9'
    || (97 <= c as u32 && c as u32 <= 102)  // 'a' ..= 'f'
    || (65 <= c as u32 && c as u32 <= 70)  // 'A' ..= 'F'
}

/// The character is a hexadecimal digit in canonical (lowercase) form.
pub open spec fn is_lower_hex_digit(c: char) -> bool {
    (48 <= c as u32 && c as u32 <= 57) || (97 <= c as u32 && c as u32 <= 102)
}

/// The numeric value of a hexadecimal digit.
pub open spec fn hex_digit_value(c: char) -> u8 {
    if 48 <= c as u32 && c as u32 <= 57 {
        ((c as u32) - 48) as u8
    } else if 97 <= c as u32 && c as u32 <= 102 {
        ((c as u32) - 87) as u8
    } else {
        ((c as u32) - 55) as u8
    }
}

/// The string is a syntactically valid identifier: exactly 24 hexadecimal
/// digits, either case.
pub open spec fn is_object_id_hex(s: Seq<char>) -> bool {
    s.len() == ID_HEX_LEN && forall|i: int| 0 <= i < s.len() ==> is_hex_digit(#[trigger] s[i])
}

/// The string is an identifier in canonical form: lowercase digits only.
pub open spec fn is_canonical_id_hex(s: Seq<char>) -> bool {
    s.len() == ID_HEX_LEN && forall|i: int| 0 <= i < s.len() ==> is_lower_hex_digit(#[trigger] s[i])
}

/// The byte encoded by a pair of hexadecimal digits.
pub open spec fn byte_of_hex_pair(hi: char, lo: char) -> u8 {
    (16 * hex_digit_value(hi) + hex_digit_value(lo)) as u8
}

/// The twelve bytes encoded by a 24-digit hexadecimal string.
pub open spec fn decoded_bytes(s: Seq<char>) -> Seq<u8> {
    Seq::new(ID_BYTE_LEN as nat, |i: int| byte_of_hex_pair(s[2 * i], s[2 * i + 1]))
}

/// The lowercase hexadecimal digit for a value below sixteen.
pub open spec fn hex_char(v: u8) -> char {
    if v < 10 {
        ((v + 48) as u8) as char
    } else {
        ((v + 87) as u8) as char
    }
}

/// The canonical (lowercase) hexadecimal encoding of a byte string: two
/// digits per byte, high nibble first.
pub open spec fn encoded_hex(b: Seq<u8>) -> Seq<char> {
    Seq::new(
        2 * b.len(),
        |i: int| if i % 2 == 0 {
            hex_char(b[i / 2] / 16)
        } else {
            hex_char(b[i / 2] % 16)
        },
    )
}

/// A store-native record identifier: twelve bytes, shown to callers as a
/// 24-digit hexadecimal string.
#[derive(Debug, PartialEq, Eq)]
pub struct UserId {
    bytes: Vec<u8>,
}

impl View for UserId {
    type V = Seq<u8>;

    closed spec fn view(&self) -> Seq<u8> {
        self.bytes@
    }
}

/// The numeric value of one hexadecimal digit, or `None` for any other
/// character.
fn hex_value_of(c: char) -> (r: Option<u8>)
    ensures
        is_hex_digit(c) ==> (r matches Some(v) && v == hex_digit_value(c) && v < 16),
        !is_hex_digit(c) ==> r is None,
{
    let u: u32 = c as u32;
    if 48 <= u && u <= 57 {
        Some((u - 48) as u8)
    } else if 97 <= u && u <= 102 {
        Some((u - 87) as u8)
    } else if 65 <= u && u <= 70 {
        Some((u - 55) as u8)
    } else {
        None
    }
}

/// A byte-for-byte copy of a byte vector.
fn copy_bytes(v: &Vec<u8>) -> (r: Vec<u8>)
    ensures
        r@ == v@,
{
    let mut r: Vec<u8> = Vec::new();
    let mut i: usize = 0;
    while i < v.len()
        invariant
            i <= v.len(),
            r@ == v@.subrange(0, i as int),
        decreases v.len() - i,
    {
        r.push(v[i]);
        proof {
            assert(r@ =~= v@.subrange(0, i as int + 1));
        }
        i = i + 1;
    }
    proof {
        assert(r@ =~= v@);
    }
    r
}

/// The one-character string for a hexadecimal digit value.
fn hex_digit_str(v: u8) -> (r: &'static str)
    requires
        v < 16,
    ensures
        r@.len() == 1,
        r@[0] == hex_char(v),
{
    proof {
        reveal_strlit("0");
        reveal_strlit("1");
        reveal_strlit("2");
        reveal_strlit("3");
        reveal_strlit("4");
        reveal_strlit("5");
        reveal_strlit("6");
        reveal_strlit("7");
        reveal_strlit("8");
        reveal_strlit("9");
        reveal_strlit("a");
        reveal_strlit("b");
        reveal_strlit("c");
        reveal_strlit("d");
        reveal_strlit("e");
        reveal_strlit("f");
    }
    if v == 0 {
        "0"
    } else if v == 1 {
        "1"
    } else if v == 2 {
        "2"
    } else if v == 3 {
        "3"
    } else if v == 4 {
        "4"
    } else if v == 5 {
        "5"
    } else if v == 6 {
        "6"
    } else if v == 7 {
        "7"
    } else if v == 8 {
        "8"
    } else if v == 9 {
        "9"
    } else if v == 10 {
        "a"
    } else if v == 11 {
        "b"
    } else if v == 12 {
        "c"
    } else if v == 13 {
        "d"
    } else if v == 14 {
        "e"
    } else {
        "f"
    }
}

impl UserId {
    /// A well-formed identifier holds exactly twelve bytes.
    pub open spec fn wf(&self) -> bool {
        self@.len() == ID_BYTE_LEN
    }

    /// Wraps raw identifier bytes; `None` unless exactly twelve bytes are
    /// given.
    pub fn from_bytes(bytes: Vec<u8>) -> (r: Option<UserId>)
        ensures
            bytes@.len() == ID_BYTE_LEN ==> (r matches Some(id) && id@ == bytes@ && id.wf()),
            bytes@.len() != ID_BYTE_LEN ==> r is None,
    {
        if bytes.len() == ID_BYTE_LEN {
            Some(UserId { bytes })
        } else {
            None
        }
    }

    /// The raw identifier bytes.
    pub fn as_bytes(&self) -> (r: &Vec<u8>)
        ensures
            r@ == self@,
    {
        &self.bytes
    }

    /// Parses an identifier string: exactly 24 hexadecimal digits, either
    /// case. Any other string is rejected as `InvalidId`.
    pub fn parse(s: &str) -> (r: Result<UserId, RepoError>)
        ensures
            is_object_id_hex(s@) ==> (r matches Ok(id) && id@ == decoded_bytes(s@) && id.wf()),
            !is_object_id_hex(s@) ==> r == Err::<UserId, RepoError>(RepoError::InvalidId),
    {
        let n: usize = s.unicode_len();
        if n != ID_HEX_LEN {
            return Err(RepoError::InvalidId);
        }
        let mut bytes: Vec<u8> = Vec::new();
        let mut j: usize = 0;
        while j < ID_BYTE_LEN
            invariant
                s@.len() == ID_HEX_LEN,
                j <= ID_BYTE_LEN,
                bytes@.len() == j,
                forall|k: int| 0 <= k < 2 * j ==> is_hex_digit(#[trigger] s@[k]),
                forall|k: int| 0 <= k < j ==> bytes@[k] == byte_of_hex_pair(s@[2 * k], s@[2 * k + 1]),
            decreases ID_BYTE_LEN - j,
        {
            let hi: char = s.get_char(2 * j);
            let lo: char = s.get_char(2 * j + 1);
            let hv: u8 = match hex_value_of(hi) {
                Some(v) => v,
                None => {
                    proof {
                        assert(!is_hex_digit(s@[2 * (j as int)]));
                    }
                    return Err(RepoError::InvalidId);
                },
            };
            let lv: u8 = match hex_value_of(lo) {
                Some(v) => v,
                None => {
                    proof {
                        assert(!is_hex_digit(s@[2 * (j as int) + 1]));
                    }
                    return Err(RepoError::InvalidId);
                },
            };
            bytes.push(16 * hv + lv);
            j = j + 1;
        }
        proof {
            assert(is_object_id_hex(s@));
            assert(bytes@ =~= decoded_bytes(s@));
        }
        Ok(UserId { bytes })
    }

    /// The canonical 24-digit lowercase hexadecimal form of the identifier.
    pub fn to_hex(&self) -> (r: String)
        requires
            self.wf(),
        ensures
            r@ == encoded_hex(self@),
            is_canonical_id_hex(r@),
    {
        let mut r: String = String::new();
        let mut j: usize = 0;
        while j < ID_BYTE_LEN
            invariant
                self.wf(),
                j <= ID_BYTE_LEN,
                r@ == encoded_hex(self@).subrange(0, 2 * j as int),
            decreases ID_BYTE_LEN - j,
        {
            let b: u8 = self.bytes[j];
            let ghost r_old: Seq<char> = r@;
            r.append(hex_digit_str(b / 16));
            r.append(hex_digit_str(b % 16));
            proof {
                let ji = j as int;
                assert((2 * ji) % 2 == 0 && (2 * ji) / 2 == ji) by (nonlinear_arith);
                assert((2 * ji + 1) % 2 == 1 && (2 * ji + 1) / 2 == ji) by (nonlinear_arith);
                assert(r@ =~= encoded_hex(self@).subrange(0, 2 * (ji + 1)));
            }
            j = j + 1;
        }
        proof {
            assert(r@ =~= encoded_hex(self@));
            lemma_encoded_hex_canonical(self@);
        }
        r
    }
}

impl Clone for UserId {
    /// A clone carries the same identifier bytes.
    fn clone(&self) -> (r: Self)
        ensures
            r@ == self@,
    {
        UserId { bytes: copy_bytes(&self.bytes) }
    }
}

/// A hexadecimal digit character encodes the value it was made from, and is
/// itself a canonical digit.
pub proof fn lemma_hex_char_value(v: u8)
    requires
        v < 16,
    ensures
        is_lower_hex_digit(hex_char(v)),
        is_hex_digit(hex_char(v)),
        hex_digit_value(hex_char(v)) == v,
{
}

/// The canonical encoding of a byte string is made of lowercase digits.
pub proof fn lemma_encoded_hex_canonical(b: Seq<u8>)
    requires
        b.len() == ID_BYTE_LEN,
    ensures
        is_canonical_id_hex(encoded_hex(b)),
        is_object_id_hex(encoded_hex(b)),
{
    let s = encoded_hex(b);
    assert forall|i: int| 0 <= i < s.len() implies is_lower_hex_digit(#[trigger] s[i])
        && is_hex_digit(s[i]) by {
        assert(0 <= i / 2 < b.len());
        if i % 2 == 0 {
            lemma_hex_char_value(b[i / 2] / 16);
        } else {
            lemma_hex_char_value(b[i / 2] % 16);
        }
    }
}

/// Encoding twelve bytes and decoding the result returns the same bytes:
/// the identifier assigned by the store survives the round trip through its
/// string form.
pub proof fn lemma_decode_encode(b: Seq<u8>)
    requires
        b.len() == ID_BYTE_LEN,
    ensures
        is_object_id_hex(encoded_hex(b)),
        decoded_bytes(encoded_hex(b)) == b,
{
    let s = encoded_hex(b);
    lemma_encoded_hex_canonical(b);
    assert forall|i: int| 0 <= i < ID_BYTE_LEN implies decoded_bytes(s)[i] == b[i] by {
        assert((2 * i) % 2 == 0 && (2 * i) / 2 == i) by (nonlinear_arith);
        assert((2 * i + 1) % 2 == 1 && (2 * i + 1) / 2 == i) by (nonlinear_arith);
        lemma_hex_char_value(b[i] / 16);
        lemma_hex_char_value(b[i] % 16);
        assert(byte_of_hex_pair(s[2 * i], s[2 * i + 1]) == b[i]);
    }
    assert(decoded_bytes(s) =~= b);
}

/// Decoding a canonical identifier string and encoding the result returns
/// the same string: the canonical form is the fixed point of the round trip.
pub proof fn lemma_encode_decode(s: Seq<char>)
    requires
        is_canonical_id_hex(s),
    ensures
        encoded_hex(decoded_bytes(s)) == s,
{
    let b = decoded_bytes(s);
    assert forall|i: int| 0 <= i < 2 * b.len() implies encoded_hex(b)[i] == s[i] by {
        let j = i / 2;
        assert(0 <= j < ID_BYTE_LEN);
        let hi = s[2 * j];
        let lo = s[2 * j + 1];
        assert(is_lower_hex_digit(hi) && is_lower_hex_digit(lo));
        assert(hex_digit_value(hi) < 16 && hex_digit_value(lo) < 16);
        assert(b[j] == (16 * hex_digit_value(hi) + hex_digit_value(lo)) as u8);
        assert(b[j] / 16 == hex_digit_value(hi) && b[j] % 16 == hex_digit_value(lo))
            by (nonlinear_arith)
            requires
                b[j] == (16 * hex_digit_value(hi) + hex_digit_value(lo)) as u8,
                hex_digit_value(hi) < 16,
                hex_digit_value(lo) < 16,
        ;
        lemma_lower_hex_digit_round_trip(hi);
        lemma_lower_hex_digit_round_trip(lo);
        if i % 2 == 0 {
            assert(i == 2 * j) by (nonlinear_arith)
                requires
                    i % 2 == 0,
                    j == i / 2,
            ;
        } else {
            assert(i == 2 * j + 1) by (nonlinear_arith)
                requires
                    i % 2 == 1,
                    j == i / 2,
            ;
        }
    }
    assert(encoded_hex(b) =~= s);
}

/// A canonical hexadecimal digit is the digit of its own value.
pub proof fn lemma_lower_hex_digit_round_trip(c: char)
    requires
        is_lower_hex_digit(c),
    ensures
        hex_digit_value(c) < 16,
        hex_char(hex_digit_value(c)) == c,
{
}

} // verus!
