use vstd::prelude::*;

verus! {

/// The value of one hexadecimal digit, either case.
pub open spec fn hex_digit_value(c: char) -> Option<u8> {
    if '0' <= c && c <= '9' {
        Some((c as u32 - '0' as u32) as u8)
    } else if 'a' <= c && c <= 'f' {
        Some((c as u32 - 'a' as u32 + 10) as u8)
    } else if 'A' <= c && c <= 'F' {
        Some((c as u32 - 'A' as u32 + 10) as u8)
    } else {
        None
    }
}

/// The bytes a hex string of even length stands for, two digits per byte,
/// the high nibble first.
pub open spec fn hex_bytes(s: Seq<char>) -> Seq<u8> {
    Seq::new(
        s.len() / 2,
        |i: int|
            (hex_digit_value(s[2 * i])->0 * 16 + hex_digit_value(s[2 * i + 1])->0) as u8,
    )
}

/// What decoding `s` as hex gives: `None` for an odd length or a character
/// that is not a hex digit.
pub open spec fn hex_decoded(s: Seq<char>) -> Option<Seq<u8>> {
    if s.len() % 2 == 0 && forall|i: int| 0 <= i < s.len() ==> hex_digit_value(s[i]) is Some {
        Some(hex_bytes(s))
    } else {
        None
    }
}

/// A character that may follow the first letter of a URI scheme.
pub open spec fn is_scheme_char(c: char) -> bool {
    ('a' <= c && c <= 'z') || ('A' <= c && c <= 'Z') || ('0' <= c && c <= '9') || c == '+' || c
        == '-' || c == '.'
}

/// Whether a string starts with a URI scheme and its colon: an ASCII letter,
/// then letters, digits, `+`, `-` or `.`, then `:`.
pub open spec fn has_uri_scheme(s: Seq<char>) -> bool {
    exists|k: int|
        #![trigger s[k]]
        1 <= k < s.len() && s[k] == ':' && (('a' <= s[0] && s[0] <= 'z') || ('A' <= s[0] && s[0]
            <= 'Z')) && forall|j: int| 0 <= j < k ==> is_scheme_char(s[j])
}

fn scheme_char(c: char) -> (r: bool)
    ensures
        r == is_scheme_char(c),
{
    ('a' <= c && c <= 'z') || ('A' <= c && c <= 'Z') || ('0' <= c && c <= '9') || c == '+' || c
        == '-' || c == '.'
}

/// Decides `has_uri_scheme`. Text without a scheme is never an absolute URI.
pub fn starts_with_scheme(s: &str) -> (r: bool)
    ensures
        r == has_uri_scheme(s@),
{
    let n = s.unicode_len();
    if n == 0 {
        return false;
    }
    let c0 = s.get_char(0);
    if !(('a' <= c0 && c0 <= 'z') || ('A' <= c0 && c0 <= 'Z')) {
        assert(!has_uri_scheme(s@));
        return false;
    }
    let mut k: usize = 1;
    while k < n
        invariant
            1 <= k <= n,
            n == s@.len(),
            s@[0] == c0,
            ('a' <= c0 && c0 <= 'z') || ('A' <= c0 && c0 <= 'Z'),
            forall|j: int| 0 <= j < k ==> is_scheme_char(#[trigger] s@[j]),
        decreases n - k,
    {
        let c = s.get_char(k);
        if c == ':' {
            assert(s@[k as int] == ':');
            return true;
        }
        if !scheme_char(c) {
            assert forall|m: int|
                1 <= m < s@.len() && #[trigger] s@[m] == ':' implies !(forall|j: int|
                0 <= j < m ==> is_scheme_char(s@[j])) by {
                if m < k {
                    assert(is_scheme_char(s@[m]));
                } else if m > k {
                    assert(!is_scheme_char(s@[k as int]));
                }
            }
            return false;
        }
        k = k + 1;
    }
    assert forall|m: int|
        1 <= m < s@.len() && #[trigger] s@[m] == ':' implies !(forall|j: int|
        0 <= j < m ==> is_scheme_char(s@[j])) by {
        assert(is_scheme_char(s@[m]));
    }
    false
}

/// The SHA-256 digest of a byte sequence.
pub uninterp spec fn sha256_of(data: Seq<u8>) -> Seq<u8>;

/// The binary form of a textual IPFS content identifier, or `None` where the
/// text is not one.
pub uninterp spec fn cid_bytes_of(s: Seq<char>) -> Option<Seq<u8>>;

/// Whether a string is an absolute URI by RFC 3986 syntax.
pub uninterp spec fn uri_valid(s: Seq<char>) -> bool;

/// The textual form of the principal with the given bytes.
pub uninterp spec fn principal_text_of(bytes: Seq<u8>) -> Seq<char>;

/// The first MIME type registered for the extension of a file name.
pub uninterp spec fn mime_of_path(name: Seq<char>) -> Option<Seq<char>>;

/// The longest principal, in bytes.
pub const MAX_PRINCIPAL_BYTES: usize = 29;

/// Relies on hex::decode: odd length and non-hex characters are errors,
/// otherwise two digits of either case per byte, high nibble first.
#[verifier::external_body]
pub(crate) fn decode_hex(s: &str) -> (r: Option<Vec<u8>>)
    ensures
        match r {
            Some(b) => hex_decoded(s@) == Some(b@),
            None => hex_decoded(s@) is None,
        },
{
    hex::decode(s).ok()
}

/// Relies on sha2's `Sha256::digest`: the 32-byte SHA-256 digest of the bytes.
#[verifier::external_body]
pub(crate) fn sha256(data: &Vec<u8>) -> (r: Vec<u8>)
    ensures
        r@ == sha256_of(data@),
        r@.len() == 32,
{
    <sha2::Sha256 as sha2::Digest>::digest(data.as_slice()).to_vec()
}

/// Relies on cid's `FromStr` for `Cid` and `Cid::to_bytes`: parses the
/// textual identifier and gives its binary form.
#[verifier::external_body]
pub(crate) fn parse_cid(s: &str) -> (r: Option<Vec<u8>>)
    ensures
        match r {
            Some(b) => cid_bytes_of(s@) == Some(b@),
            None => cid_bytes_of(s@) is None,
        },
{
    match s.parse::<cid::Cid>() {
        Ok(c) => Some(c.to_bytes()),
        Err(_) => None,
    }
}

/// Relies on uriparse's `URI::try_from(&str)`: whether the text parses as an
/// absolute URI. Only text that starts with a scheme is handed over: on a
/// schemeless path whose first segment holds a colon, uriparse panics while
/// converting its error.
#[verifier::external_body]
pub(crate) fn is_valid_uri(s: &str) -> (r: bool)
    requires
        has_uri_scheme(s@),
    ensures
        r == uri_valid(s@),
{
    uriparse::URI::try_from(s).is_ok()
}

/// Relies on candid's `Principal::from_slice` and `Principal::to_text`: the
/// textual form of a principal of at most 29 bytes (`from_slice` panics on
/// more).
#[verifier::external_body]
pub(crate) fn principal_text(bytes: &Vec<u8>) -> (r: String)
    requires
        bytes@.len() <= MAX_PRINCIPAL_BYTES,
    ensures
        r@ == principal_text_of(bytes@),
{
    candid::Principal::from_slice(bytes.as_slice()).to_text()
}

/// Relies on mime_guess's `from_path(..).first()`: the first MIME type known
/// for the file name's extension, by its static table.
#[verifier::external_body]
pub(crate) fn guess_mime(name: &str) -> (r: Option<String>)
    ensures
        match r {
            Some(m) => mime_of_path(name@) == Some(m@),
            None => mime_of_path(name@) is None,
        },
{
    match mime_guess::from_path(name).first() {
        Some(m) => Some(m.to_string()),
        None => None,
    }
}

} // verus!
