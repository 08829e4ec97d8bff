//! Strings the library builds: owned copies of literals, decimal numbers,
//! Vulkan result descriptions and Vulkan's fixed-size C character arrays.

use vstd::prelude::*;
use vstd::string::StringExecFns;
use vstd::utf8::{valid_utf8, decode_utf8, encode_utf8};
use vstd::string::StringSliceAdditionalSpecFns;
use vstd::string::StrSliceExecFns;

verus! {

/// An owned copy of a string slice.
pub fn owned(s: &str) -> (res: String)
    ensures
        res@ == s@,
{
    s.to_owned()
}

/// `a` followed by `b`, as a new string.
pub fn concat(a: &str, b: &str) -> (res: String)
    ensures
        res@ == a@ + b@,
{
    let mut s = owned(a);
    s.append(b);
    s
}

/// The character of a decimal digit.
pub open spec fn digit_char(d: nat) -> char {
    (48 + d) as char
}

/// The decimal representation of a natural number, without leading zeros.
pub open spec fn decimal(n: nat) -> Seq<char>
    decreases n,
{
    if n < 10 {
        seq![digit_char(n)]
    } else {
        decimal(n / 10).push(digit_char(n % 10))
    }
}

/// `u32`'s `ToString`, which std documents as its `Display`: the number in decimal.
#[verifier::external_body]
pub(crate) fn u32_to_decimal(n: u32) -> (res: String)
    ensures
        res@ == decimal(n as nat),
{
    n.to_string()
}

/// The text that `ash` displays for a `VkResult` code: a sentence for the
/// codes it describes, the code's name otherwise.
pub uninterp spec fn vk_result_text(code: i32) -> Seq<char>;

/// `Display` of `ash::vk::Result` on the code's raw value. Its text is named,
/// not spelled out: it is a table of `ash`'s.
#[verifier::external_body]
pub(crate) fn vk_result_to_string(code: i32) -> (res: String)
    ensures
        res@ == vk_result_text(code),
{
    ash::vk::Result::from_raw(code).to_string()
}

/// The text of the `Utf8Error` that `std::str::from_utf8` gives for bytes
/// that are not valid UTF-8.
pub uninterp spec fn utf8_error_text(bytes: Seq<u8>) -> Seq<char>;

/// `std::str::from_utf8`: a string slice over exactly these bytes when they
/// are valid UTF-8, otherwise the `Display` text of its error.
#[verifier::external_body]
pub(crate) fn str_from_utf8(bytes: &[u8]) -> (res: Result<&str, String>)
    ensures
        res is Ok <==> valid_utf8(bytes@),
        res matches Ok(s) ==> s.spec_bytes() == bytes@,
        res matches Err(msg) ==> msg@ == utf8_error_text(bytes@),
{
    match std::str::from_utf8(bytes) {
        Ok(s) => Ok(s),
        Err(e) => Err(format!("{}", e)),
    }
}

/// `n` is the length of the C string held in `raw`: the index of its first NUL.
pub open spec fn is_c_string_len(raw: Seq<i8>, n: int) -> bool {
    &&& 0 <= n < raw.len()
    &&& raw[n] == 0
    &&& forall|i: int| 0 <= i < n ==> raw[i] != 0
}

/// `raw` holds a NUL somewhere, so a C string can be read from it.
pub open spec fn has_nul(raw: Seq<i8>) -> bool {
    exists|n: int| 0 <= n < raw.len() && raw[n] == 0
}

/// The length of the C string held in `raw`.
pub open spec fn c_string_len(raw: Seq<i8>) -> int {
    choose|n: int| is_c_string_len(raw, n)
}

/// The bytes of the C string held in `raw`, its NUL left out.
pub open spec fn c_string_bytes(raw: Seq<i8>) -> Seq<u8> {
    raw.take(c_string_len(raw)).map_values(|c: i8| c as u8)
}

/// The first NUL of `raw`.
pub fn c_string_length(raw: &[i8]) -> (n: usize)
    requires
        has_nul(raw@),
    ensures
        is_c_string_len(raw@, n as int),
        c_string_len(raw@) == n as int,
{
    let mut i: usize = 0;
    while i < raw.len()
        invariant
            has_nul(raw@),
            i <= raw.len(),
            forall|k: int| 0 <= k < i ==> raw@[k] != 0,
        decreases raw.len() - i,
    {
        if raw[i] == 0 {
            proof {
                assert(is_c_string_len(raw@, i as int));
                let m = c_string_len(raw@);
                assert(is_c_string_len(raw@, m));
                if m < i as int {
                    assert(raw@[m] != 0);
                } else if m > i as int {
                    assert(raw@[i as int] != 0);
                }
            }
            return i;
        }
        i = i + 1;
    }
    proof {
        let n = choose|n: int| 0 <= n < raw@.len() && raw@[n] == 0;
        assert(raw@[n] != 0);
    }
    0
}

/// The bytes of the C string held in `raw`.
pub fn c_string_to_bytes(raw: &[i8]) -> (res: Vec<u8>)
    requires
        has_nul(raw@),
    ensures
        res@ == c_string_bytes(raw@),
{
    let n = c_string_length(raw);
    let mut bytes: Vec<u8> = Vec::new();
    let mut i: usize = 0;
    while i < n
        invariant
            n < raw.len(),
            i <= n,
            bytes@ == raw@.take(i as int).map_values(|c: i8| c as u8),
        decreases n - i,
    {
        bytes.push(raw[i] as u8);
        i = i + 1;
        assert(bytes@ =~= raw@.take(i as int).map_values(|c: i8| c as u8));
    }
    assert(bytes@ =~= c_string_bytes(raw@));
    bytes
}

/// Reads the C string held in `raw` as UTF-8 text. `None` when its bytes are
/// not valid UTF-8.
pub fn c_string_to_string(raw: &[i8]) -> (res: Option<String>)
    requires
        has_nul(raw@),
    ensures
        res is Some <==> valid_utf8(c_string_bytes(raw@)),
        res matches Some(s) ==> {
            &&& encode_utf8(s@) == c_string_bytes(raw@)
            &&& s@ == decode_utf8(c_string_bytes(raw@))
        },
{
    let bytes = c_string_to_bytes(raw);
    match str_from_utf8(bytes.as_slice()) {
        Ok(s) => {
            let res = s.to_owned();
            proof {
                vstd::utf8::encode_utf8_decode_utf8(s@);
            }
            Some(res)
        },
        Err(_) => None,
    }
}

} // verus!

verus! {

/// `s` ends with the characters of `suffix`.
pub open spec fn ends_with_chars(s: Seq<char>, suffix: Seq<char>) -> bool {
    s.len() >= suffix.len() && s.subrange(s.len() - suffix.len(), s.len() as int) == suffix
}

/// Whether `s` ends with `suffix` (`str::ends_with` with a string pattern).
pub fn ends_with(s: &str, suffix: &str) -> (res: bool)
    ensures
        res == ends_with_chars(s@, suffix@),
{
    let n = s.unicode_len();
    let m = suffix.unicode_len();
    if n < m {
        return false;
    }
    let mut i: usize = 0;
    while i < m
        invariant
            n == s@.len(),
            m == suffix@.len(),
            m <= n,
            i <= m,
            forall|k: int| 0 <= k < i ==> s@[n - m + k] == suffix@[k],
        decreases m - i,
    {
        if s.get_char(n - m + i) != suffix.get_char(i) {
            assert(s@.subrange(n - m, n as int)[i as int] != suffix@[i as int]);
            return false;
        }
        i = i + 1;
    }
    assert(s@.subrange(n - m, n as int) =~= suffix@);
    true
}

/// The `Debug` text of a path given as a string (quoted, with escapes).
pub uninterp spec fn path_debug_text(path: Seq<char>) -> Seq<char>;

/// `format!("{:?}", Path::new(path))`: the path's `Debug` text.
#[verifier::external_body]
pub(crate) fn path_debug(path: &str) -> (res: String)
    ensures
        res@ == path_debug_text(path@),
{
    format!("{:?}", std::path::Path::new(path))
}

} // verus!

verus! {

/// `res` is the outcome `expected` describes: the same value, or an error
/// whose text is the expected one.
pub open spec fn outcome_is<T>(res: Result<T, String>, expected: Result<T, Seq<char>>) -> bool {
    match expected {
        Ok(v) => res == Ok::<T, String>(v),
        Err(m) => res matches Err(msg) && msg@ == m,
    }
}

} // verus!

verus! {

/// A name written into a Vulkan character array, its bytes followed by a
/// NUL, reads back as exactly those bytes when none of them is NUL.
pub proof fn lemma_c_string_round_trip(bytes: Seq<u8>)
    requires
        forall|i: int| 0 <= i < bytes.len() ==> bytes[i] != 0,
    ensures
        has_nul(bytes.map_values(|b: u8| b as i8).push(0i8)),
        c_string_len(bytes.map_values(|b: u8| b as i8).push(0i8)) == bytes.len(),
        c_string_bytes(bytes.map_values(|b: u8| b as i8).push(0i8)) == bytes,
{
    let raw = bytes.map_values(|b: u8| b as i8).push(0i8);
    let n = bytes.len() as int;
    assert forall|i: int| 0 <= i < n implies raw[i] != 0 by {
        let b = bytes[i];
        assert(b != 0 ==> (b as i8) != 0) by (bit_vector);
    }
    assert(raw[n] == 0);
    assert(is_c_string_len(raw, n));
    let m = c_string_len(raw);
    assert(is_c_string_len(raw, m));
    if m < n {
        assert(raw[m] != 0);
    } else if m > n {
        assert(raw[n] != 0);
    }
    assert forall|i: int| 0 <= i < n implies #[trigger] c_string_bytes(raw)[i] == bytes[i] by {
        let b = bytes[i];
        assert(((b as i8) as u8) == b) by (bit_vector);
    }
    assert(c_string_bytes(raw) =~= bytes);
}

} // verus!
