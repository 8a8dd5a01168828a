//! A codec between short strings over a 64-letter alphabet and 64-bit
//! numbers: each character stands for six bits, the first character for the
//! lowest.
use vstd::prelude::*;
use vstd::string::*;
use vstd::utf8::*;
use crate::text::chars_of;
use rand::Rng;

verus! {

/// Why a string stands for no number.
#[derive(Copy, Clone, Debug, PartialEq, Eq, Structural)]
pub enum UidError {
    /// The string is longer than 10 bytes.
    TooLong,
    /// The string holds a character outside the alphabet.
    UnsupportedChar,
}

impl UidError {
    /// The message of the failure.
    pub fn to_string(&self) -> (s: String)
        ensures
            s@ == match self {
                UidError::TooLong => "字符串长度不能超过10个字符"@,
                UidError::UnsupportedChar => "不支持的字符"@,
            },
    {
        match self {
            UidError::TooLong => "字符串长度不能超过10个字符".to_owned(),
            UidError::UnsupportedChar => "不支持的字符".to_owned(),
        }
    }
}

/// The six bits that a character of the alphabet stands for: `A` to `Z` for
/// 0 to 25, `a` to `z` for 26 to 51, `0` to `9` for 52 to 61, `+` for 62
/// and `/` for 63.
pub open spec fn sextet(c: char) -> Option<u8> {
    let n = c as u32;
    if 65 <= n <= 90 {
        Some((n - 65) as u8)
    } else if 97 <= n <= 122 {
        Some((n - 97 + 26) as u8)
    } else if 48 <= n <= 57 {
        Some((n - 48 + 52) as u8)
    } else if n == 43 {
        Some(62u8)
    } else if n == 47 {
        Some(63u8)
    } else {
        None
    }
}

/// The character that stands for the six bits `v`.
pub open spec fn alphabet(v: u8) -> char
    recommends
        v < 64,
{
    if v <= 25 {
        ((v + 65) as u8) as char
    } else if v <= 51 {
        ((v - 26 + 97) as u8) as char
    } else if v <= 61 {
        ((v - 52 + 48) as u8) as char
    } else if v == 62 {
        '+'
    } else {
        '/'
    }
}

/// Every character is one of the alphabet.
pub open spec fn all_supported(s: Seq<char>) -> bool {
    forall|i: int| 0 <= i < s.len() ==> sextet(#[trigger] s[i]) is Some
}

/// The number that a string over the alphabet stands for.
pub open spec fn decode(s: Seq<char>) -> nat
    decreases s.len(),
{
    if s.len() == 0 {
        0
    } else {
        (match sextet(s[0]) {
            Some(v) => v as nat,
            None => 0,
        }) + 64 * decode(s.drop_first())
    }
}

/// The string that stands for `n`: its six-bit groups from the lowest up,
/// as far as one is not zero. Zero is the empty string.
pub open spec fn encode(n: nat) -> Seq<char>
    decreases n,
{
    if n == 0 {
        Seq::empty()
    } else {
        seq![alphabet((n % 64) as u8)] + encode(n / 64)
    }
}

/// What a string stands for: a string of more than 10 bytes is refused as
/// too long, one with a character outside the alphabet as unsupported.
pub open spec fn str_to_int_spec(s: Seq<char>) -> Result<u64, UidError> {
    if encode_utf8(s).len() > 10 {
        Err(UidError::TooLong)
    } else if !all_supported(s) {
        Err(UidError::UnsupportedChar)
    } else {
        Ok(decode(s) as u64)
    }
}

pub open spec fn pow64(k: nat) -> nat
    decreases k,
{
    if k == 0 {
        1
    } else {
        64 * pow64((k - 1) as nat)
    }
}

proof fn lemma_pow64(k: nat)
    requires
        k <= 10,
    ensures
        pow64(k) <= 0x1000_0000_0000_0000,
        k <= 9 ==> 64 * pow64(k) <= 0x1000_0000_0000_0000,
        pow64(k) >= 1,
    decreases k,
{
    reveal_with_fuel(pow64, 12);
}

/// A string of `k` characters stands for a number below `64^k`.
pub proof fn lemma_decode_bound(s: Seq<char>)
    ensures
        decode(s) < pow64(s.len()),
    decreases s.len(),
{
    if s.len() > 0 {
        lemma_decode_bound(s.drop_first());
    }
}

proof fn lemma_supported_is_ascii(c: char)
    requires
        sextet(c) is Some,
    ensures
        '\0' <= c <= '\u{7f}',
{
}

/// Computes [`sextet`].
pub fn char_to_u8(c: char) -> (r: Result<u8, UidError>)
    ensures
        match r {
            Ok(v) => sextet(c) == Some(v) && v < 64,
            Err(e) => sextet(c) is None && e == UidError::UnsupportedChar,
        },
{
    let n = c as u32;
    if 65 <= n && n <= 90 {
        Ok((n - 65) as u8)
    } else if 97 <= n && n <= 122 {
        Ok((n - 97 + 26) as u8)
    } else if 48 <= n && n <= 57 {
        Ok((n - 48 + 52) as u8)
    } else if n == 43 {
        Ok(62)
    } else if n == 47 {
        Ok(63)
    } else {
        Err(UidError::UnsupportedChar)
    }
}

/// The character for six bits; nothing for a number of more bits.
pub fn u6_to_char(n: u8) -> (r: Option<char>)
    ensures
        r == if n < 64 {
            Some(alphabet(n))
        } else {
            None
        },
{
    if n <= 25 {
        Some((n + 65) as char)
    } else if n <= 51 {
        Some((n - 26 + 97) as char)
    } else if n <= 61 {
        Some((n - 52 + 48) as char)
    } else if n == 62 {
        Some('+')
    } else if n == 63 {
        Some('/')
    } else {
        None
    }
}

/// The number that `s` stands for: see [`str_to_int_spec`].
pub fn str_to_int(s: &str) -> (r: Result<u64, UidError>)
    ensures
        r == str_to_int_spec(s@),
{
    if s.as_bytes().len() > 10 {
        return Err(UidError::TooLong);
    }
    if !s.is_ascii() {
        proof {
            if all_supported(s@) {
                assert forall|i: int| 0 <= i < s@.len() implies '\0' <= #[trigger] s@[i]
                    <= '\u{7f}' by {
                    lemma_supported_is_ascii(s@[i]);
                }
                assert(is_ascii_chars(s@));
                assert(vstd::string::is_ascii(s));
            }
        }
        return Err(UidError::UnsupportedChar);
    }
    proof {
        is_ascii_chars_encode_utf8(s@);
    }
    let chars = chars_of(s);
    let n = chars.len();
    let mut i: usize = n;
    let mut acc: u64 = 0;
    proof {
        assert(chars@.skip(n as int) =~= Seq::empty());
    }
    while i > 0
        invariant
            n == chars@.len(),
            chars@ == s@,
            encode_utf8(s@).len() <= 10,
            n <= 10,
            i <= n,
            acc == decode(chars@.skip(i as int)),
            forall|j: int| i <= j < n ==> sextet(#[trigger] chars@[j]) is Some,
        decreases i,
    {
        let ghost tail = chars@.skip(i as int);
        let ghost next = chars@.skip(i - 1);
        proof {
            assert(next[0] == chars@[i - 1]);
            assert(next.drop_first() =~= tail);
            lemma_decode_bound(tail);
            lemma_pow64((n - i) as nat);
        }
        match char_to_u8(chars[i - 1]) {
            Err(e) => {
                return Err(e);
            },
            Ok(v) => {
                acc = acc * 64 + v as u64;
            },
        }
        i -= 1;
    }
    proof {
        assert(chars@.skip(0) =~= chars@);
    }
    Ok(acc)
}

/// The string that stands for `n`: see [`encode`].
pub fn int_to_str(n: u64) -> (s: String)
    ensures
        s@ == encode(n as nat),
{
    let mut s = String::new();
    let mut m = n;
    proof {
        assert(s@ + encode(m as nat) =~= encode(n as nat));
    }
    while m != 0
        invariant
            s@ + encode(m as nat) == encode(n as nat),
        decreases m,
    {
        let v = (m % 64) as u8;
        let ghost before = s@;
        match u6_to_char(v) {
            Some(c) => {
                s.push(c);
            },
            None => {},
        }
        proof {
            assert(encode(m as nat) == seq![alphabet(v)] + encode((m / 64) as nat));
            assert(s@ + encode((m / 64) as nat) =~= before + encode(m as nat));
        }
        m = m / 64;
    }
    proof {
        assert(s@ + Seq::<char>::empty() =~= s@);
    }
    s
}

/// Each character of the alphabet stands for the six bits it is the
/// character of.
pub proof fn lemma_sextet_of_alphabet(v: u8)
    requires
        v < 64,
    ensures
        sextet(alphabet(v)) == Some(v),
{
}

/// Decoding undoes encoding: the string that stands for a number stands
/// for that number.
pub proof fn lemma_decode_encode(n: nat)
    ensures
        decode(encode(n)) == n,
        all_supported(encode(n)),
    decreases n,
{
    if n > 0 {
        let v = (n % 64) as u8;
        lemma_sextet_of_alphabet(v);
        lemma_decode_encode(n / 64);
        let s = encode(n);
        assert(s[0] == alphabet(v));
        assert(s.drop_first() =~= encode(n / 64));
        assert forall|i: int| 0 <= i < s.len() implies sextet(#[trigger] s[i]) is Some by {
            if i > 0 {
                assert(s[i] == encode(n / 64)[i - 1]);
            }
        }
    }
}

/// A number below `n`, drawn by `rand::Rng::gen_range` from the generator
/// of the current thread (`rand::thread_rng`). The range `0..n` must not be
/// empty. Only the bounds are claimed of the number drawn.
#[verifier::external_body]
fn random_below(n: usize) -> (i: usize)
    requires
        n > 0,
    ensures
        i < n,
{
    rand::thread_rng().gen_range(0..n)
}

/// A letter or a digit.
pub open spec fn is_key_char(c: char) -> bool {
    exists|v: u8| v < 62 && c == alphabet(v)
}

/// A random key of `length` characters, each a letter or a digit.
pub fn generate_api_key(length: usize) -> (key: String)
    ensures
        key@.len() == length,
        forall|i: int| 0 <= i < key@.len() ==> is_key_char(#[trigger] key@[i]),
{
    let mut key = String::new();
    let mut i: usize = 0;
    while i < length
        invariant
            i <= length,
            key@.len() == i,
            forall|j: int| 0 <= j < key@.len() ==> is_key_char(#[trigger] key@[j]),
        decreases length - i,
    {
        let v = random_below(62) as u8;
        let ghost before = key@;
        key.push(pick(v));
        proof {
            assert forall|j: int| 0 <= j < key@.len() implies is_key_char(#[trigger] key@[j]) by {
                if j < before.len() {
                    assert(key@[j] == before[j]);
                }
            }
        }
        i += 1;
    }
    key
}

/// The letter or digit numbered `v`.
fn pick(v: u8) -> (c: char)
    requires
        v < 62,
    ensures
        c == alphabet(v),
        is_key_char(c),
{
    match u6_to_char(v) {
        Some(c) => c,
        None => 'A',
    }
}

} // verus!
