//! Content digests in the `sha256:<hex>` form: computing one from bytes and
//! canonicalising an operator's pin so that the two compare as text.

use vstd::prelude::*;

verus! {

/// The scheme prefix of every digest this library produces or accepts.
pub open spec fn scheme() -> Seq<char> {
    seq!['s', 'h', 'a', '2', '5', '6', ':']
}

/// The number of hex characters after the scheme.
pub const HEX_LEN: usize = 64;

/// The lowercase hexadecimal digit for a nibble.
pub open spec fn hex_digit(n: u8) -> char {
    if n < 10 {
        ((n + 48) as u8) as char
    } else {
        ((n + 87) as u8) as char
    }
}

/// Lowercase hex encoding, two digits per byte, high nibble first.
pub open spec fn hex_lower(bytes: Seq<u8>) -> Seq<char>
    decreases bytes.len(),
{
    if bytes.len() == 0 {
        seq![]
    } else {
        seq![hex_digit(bytes[0] / 16), hex_digit(bytes[0] % 16)] + hex_lower(bytes.drop_first())
    }
}

/// The digest text of a SHA-256 hash: the scheme, then the lowercase hex.
pub open spec fn digest_text(hash: Seq<u8>) -> Seq<char> {
    scheme() + hex_lower(hash)
}

/// An ASCII hexadecimal digit, either case.
pub open spec fn is_hex_char(c: char) -> bool {
    ('0' <= c && c <= '9') || ('a' <= c && c <= 'f') || ('A' <= c && c <= 'F')
}

/// ASCII lowercasing of one character; every other character is unchanged.
pub open spec fn ascii_lower(c: char) -> char {
    if 'A' <= c && c <= 'Z' {
        ((c as u8) + 32) as u8 as char
    } else {
        c
    }
}

pub open spec fn lower_all(s: Seq<char>) -> Seq<char> {
    Seq::new(s.len(), |i: int| ascii_lower(s[i]))
}

/// `s` starts with the digest scheme.
pub open spec fn has_scheme(s: Seq<char>) -> bool {
    s.len() >= scheme().len() && s.subrange(0, scheme().len() as int) == scheme()
}

/// What follows the scheme in `s`.
pub open spec fn after_scheme(s: Seq<char>) -> Seq<char> {
    s.subrange(scheme().len() as int, s.len() as int)
}

/// `hex` is exactly 64 hexadecimal characters.
pub open spec fn is_hex64(hex: Seq<char>) -> bool {
    hex.len() == HEX_LEN && forall|i: int| 0 <= i < hex.len() ==> is_hex_char(#[trigger] hex[i])
}

/// A well-formed digest: the scheme, then 64 hex characters in either case.
pub open spec fn is_digest(s: Seq<char>) -> bool {
    has_scheme(s) && is_hex64(after_scheme(s))
}

/// The canonical spelling of a well-formed digest: its hex in lowercase.
pub open spec fn canonical(s: Seq<char>) -> Seq<char> {
    scheme() + lower_all(after_scheme(s))
}

pub open spec fn no_scheme_message(digest: Seq<char>) -> Seq<char> {
    "digest `"@ + digest + "` is not `sha256:<hex>`"@
}

pub open spec fn bad_hex_message(digest: Seq<char>) -> Seq<char> {
    "digest `"@ + digest + "` is not 64 hex characters"@
}

/// What `canonicalize` answers, as text.
pub open spec fn canonicalize_spec(digest: Seq<char>) -> Result<Seq<char>, Seq<char>> {
    if !has_scheme(digest) {
        Err(no_scheme_message(digest))
    } else if !is_hex64(after_scheme(digest)) {
        Err(bad_hex_message(digest))
    } else {
        Ok(canonical(digest))
    }
}

/// The SHA-256 hash of `data`, as `sha2` computes it.
pub uninterp spec fn sha256_of(data: Seq<u8>) -> Seq<u8>;

/// The 32-byte SHA-256 hash of `data`, by `sha2::Sha256::digest`; a function
/// of `data` alone (`sha256_of`).
#[verifier::external_body]
fn sha256(data: &[u8]) -> (hash: Vec<u8>)
    ensures
        hash@ == sha256_of(data@),
        hash@.len() == 32,
{
    <sha2::Sha256 as sha2::Digest>::digest(data).to_vec()
}

/// The string of `chars`, in order, by std's `FromIterator<char>` for
/// `String`.
#[verifier::external_body]
pub(crate) fn string_from_chars(chars: &Vec<char>) -> (s: String)
    ensures
        s@ == chars@,
{
    chars.iter().collect()
}

pub fn hex_digit_exec(n: u8) -> (c: char)
    requires
        n < 16,
    ensures
        c == hex_digit(n),
{
    if n < 10 {
        (n + 48) as char
    } else {
        (n + 87) as char
    }
}

proof fn lemma_hex_lower_push(bytes: Seq<u8>, b: u8)
    ensures
        hex_lower(bytes.push(b)) == hex_lower(bytes) + seq![hex_digit(b / 16), hex_digit(b % 16)],
    decreases bytes.len(),
{
    if bytes.len() == 0 {
        assert(bytes.push(b).drop_first() =~= Seq::<u8>::empty());
        assert(hex_lower(Seq::<u8>::empty()) =~= Seq::<char>::empty());
        assert(hex_lower(bytes.push(b)) =~= seq![hex_digit(b / 16), hex_digit(b % 16)]);
    } else {
        lemma_hex_lower_push(bytes.drop_first(), b);
        assert(bytes.push(b).drop_first() =~= bytes.drop_first().push(b));
        assert(hex_lower(bytes.push(b)) =~= hex_lower(bytes) + seq![
            hex_digit(b / 16),
            hex_digit(b % 16),
        ]);
    }
}

proof fn lemma_hex_lower_len(bytes: Seq<u8>)
    ensures
        hex_lower(bytes).len() == 2 * bytes.len(),
    decreases bytes.len(),
{
    if bytes.len() > 0 {
        lemma_hex_lower_len(bytes.drop_first());
    }
}

/// Lowercase hex of `bytes`.
pub fn to_hex_lower(bytes: &[u8]) -> (hex: String)
    ensures
        hex@ == hex_lower(bytes@),
{
    let mut out: Vec<char> = Vec::new();
    let n = bytes.len();
    for i in 0..n
        invariant
            n == bytes@.len(),
            out@ == hex_lower(bytes@.take(i as int)),
    {
        let b = bytes[i];
        proof {
            lemma_hex_lower_push(bytes@.take(i as int), b);
            assert(bytes@.take(i as int).push(b) =~= bytes@.take(i + 1));
        }
        out.push(hex_digit_exec(b / 16));
        out.push(hex_digit_exec(b % 16));
    }
    assert(bytes@.take(n as int) =~= bytes@);
    string_from_chars(&out)
}

/// The `sha256:<hex>` digest of `bytes`, hex in lowercase.
pub fn sha256_digest(bytes: &[u8]) -> (digest: String)
    ensures
        digest@ == digest_text(sha256_of(bytes@)),
{
    let hash = sha256(bytes);
    let hex = to_hex_lower(hash.as_slice());
    proof {
        reveal_strlit("sha256:");
    }
    String::from_str("sha256:").concat(hex.as_str())
}


fn ascii_lower_exec(c: char) -> (l: char)
    ensures
        l == ascii_lower(c),
{
    if 'A' <= c && c <= 'Z' {
        ((c as u8) + 32) as char
    } else {
        c
    }
}

fn is_hex_char_exec(c: char) -> (b: bool)
    ensures
        b == is_hex_char(c),
{
    ('0' <= c && c <= '9') || ('a' <= c && c <= 'f') || ('A' <= c && c <= 'F')
}

fn starts_with_scheme(s: &str) -> (b: bool)
    ensures
        b == has_scheme(s@),
{
    let n = s.unicode_len();
    if n < 7 {
        return false;
    }
    let ok = s.get_char(0) == 's' && s.get_char(1) == 'h' && s.get_char(2) == 'a' && s.get_char(3)
        == '2' && s.get_char(4) == '5' && s.get_char(5) == '6' && s.get_char(6) == ':';
    proof {
        if ok {
            assert(s@.subrange(0, 7) =~= scheme());
        } else {
            if has_scheme(s@) {
                assert(s@.subrange(0, 7)[0] == scheme()[0]);
                assert(s@.subrange(0, 7)[1] == scheme()[1]);
                assert(s@.subrange(0, 7)[2] == scheme()[2]);
                assert(s@.subrange(0, 7)[3] == scheme()[3]);
                assert(s@.subrange(0, 7)[4] == scheme()[4]);
                assert(s@.subrange(0, 7)[5] == scheme()[5]);
                assert(s@.subrange(0, 7)[6] == scheme()[6]);
            }
        }
    }
    ok
}

fn all_hex64(hex: &str) -> (b: bool)
    ensures
        b == is_hex64(hex@),
{
    let n = hex.unicode_len();
    if n != HEX_LEN {
        return false;
    }
    let mut i: usize = 0;
    while i < n
        invariant
            n == hex@.len(),
            i <= n,
            forall|j: int| 0 <= j < i ==> is_hex_char(#[trigger] hex@[j]),
        decreases n - i,
    {
        if !is_hex_char_exec(hex.get_char(i)) {
            return false;
        }
        i += 1;
    }
    true
}

/// Canonicalises a digest so that it can be compared as text: `sha256:`
/// followed by exactly 64 hex characters, the hex lowercased. Any other text
/// is refused, with a message that quotes it.
pub fn canonicalize(digest: &str) -> (res: Result<String, String>)
    ensures
        match res {
            Ok(s) => canonicalize_spec(digest@) == Ok::<Seq<char>, Seq<char>>(s@),
            Err(e) => canonicalize_spec(digest@) == Err::<Seq<char>, Seq<char>>(e@),
        },
{
    if !starts_with_scheme(digest) {
        return Err(String::from_str("digest `").concat(digest).concat("` is not `sha256:<hex>`"));
    }
    let n = digest.unicode_len();
    let hex = digest.substring_char(7, n);
    assert(scheme().len() == 7);
    assert(hex@ == after_scheme(digest@));
    if !all_hex64(hex) {
        return Err(String::from_str("digest `").concat(digest).concat("` is not 64 hex characters"));
    }
    let mut out: Vec<char> = Vec::new();
    let mut i: usize = 0;
    while i < HEX_LEN
        invariant
            hex@.len() == HEX_LEN,
            i <= HEX_LEN,
            out@ == lower_all(hex@).take(i as int),
        decreases HEX_LEN - i,
    {
        let c = hex.get_char(i);
        out.push(ascii_lower_exec(c));
        assert(out@ =~= lower_all(hex@).take(i + 1));
        i += 1;
    }
    assert(out@ =~= lower_all(hex@));
    let lowered = string_from_chars(&out);
    proof {
        reveal_strlit("sha256:");
    }
    let r = String::from_str("sha256:").concat(lowered.as_str());
    assert(r@ == canonical(digest@));
    Ok(r)
}


/// Lowercase hexadecimal: a digit or `a` to `f`.
pub open spec fn is_lower_hex_char(c: char) -> bool {
    ('0' <= c && c <= '9') || ('a' <= c && c <= 'f')
}

proof fn lemma_hex_digit_lower(n: u8)
    requires
        n < 16,
    ensures
        is_lower_hex_char(hex_digit(n)),
{
}

proof fn lemma_hex_lower_chars(bytes: Seq<u8>)
    ensures
        forall|i: int| 0 <= i < hex_lower(bytes).len() ==> is_lower_hex_char(#[trigger] hex_lower(bytes)[i]),
    decreases bytes.len(),
{
    lemma_hex_lower_len(bytes);
    if bytes.len() > 0 {
        lemma_hex_lower_chars(bytes.drop_first());
        lemma_hex_digit_lower(bytes[0] / 16);
        lemma_hex_digit_lower(bytes[0] % 16);
        let head = seq![hex_digit(bytes[0] / 16), hex_digit(bytes[0] % 16)];
        assert forall|i: int| 0 <= i < hex_lower(bytes).len() implies is_lower_hex_char(
            #[trigger] hex_lower(bytes)[i],
        ) by {
            if i >= 2 {
                assert(hex_lower(bytes)[i] == hex_lower(bytes.drop_first())[i - 2]);
            }
        }
    }
}

proof fn lemma_lower_all_of_lower_hex(s: Seq<char>)
    requires
        forall|i: int| 0 <= i < s.len() ==> is_lower_hex_char(#[trigger] s[i]),
    ensures
        lower_all(s) == s,
        forall|i: int| 0 <= i < s.len() ==> is_hex_char(#[trigger] s[i]),
{
    assert(lower_all(s) =~= s);
}

proof fn lemma_canonical_parts(d: Seq<char>)
    requires
        is_digest(d),
    ensures
        has_scheme(canonical(d)),
        after_scheme(canonical(d)) == lower_all(after_scheme(d)),
        is_hex64(lower_all(after_scheme(d))),
        forall|i: int|
            0 <= i < lower_all(after_scheme(d)).len() ==> is_lower_hex_char(
                #[trigger] lower_all(after_scheme(d))[i],
            ),
{
    assert(scheme().len() == 7);
    let c = canonical(d);
    assert(c.subrange(0, 7) =~= scheme());
    assert(after_scheme(c) =~= lower_all(after_scheme(d)));
    let l = lower_all(after_scheme(d));
    assert forall|i: int| 0 <= i < l.len() implies is_lower_hex_char(#[trigger] l[i]) by {
        assert(is_hex_char(after_scheme(d)[i]));
        let ch = after_scheme(d)[i];
        if 'A' <= ch && ch <= 'F' {
            assert(((ch as u8) + 32) as u8 as char == l[i]);
        }
    }
}

/// Canonicalising is idempotent: a canonical digest canonicalises to itself.
pub proof fn canonicalize_idempotent(digest: Seq<char>)
    requires
        canonicalize_spec(digest) is Ok,
    ensures
        canonicalize_spec(canonicalize_spec(digest)->Ok_0) == canonicalize_spec(digest),
{
    lemma_canonical_parts(digest);
    let c = canonical(digest);
    lemma_lower_all_of_lower_hex(lower_all(after_scheme(digest)));
    assert(canonical(c) =~= c);
}

/// Two digests that differ only in the case of their hex canonicalise alike.
pub proof fn canonicalize_ignores_hex_case(a: Seq<char>, b: Seq<char>)
    requires
        has_scheme(a),
        has_scheme(b),
        lower_all(after_scheme(a)) == lower_all(after_scheme(b)),
        is_hex64(after_scheme(a)),
        is_hex64(after_scheme(b)),
    ensures
        canonicalize_spec(a) == canonicalize_spec(b),
        canonicalize_spec(a) is Ok,
{
}

/// Every digest computed from a 32-byte hash is already canonical: it is
/// accepted as a pin and canonicalises to itself.
pub proof fn computed_digest_is_canonical(h: Seq<u8>)
    requires
        h.len() == 32,
    ensures
        canonicalize_spec(digest_text(h)) == Ok::<Seq<char>, Seq<char>>(digest_text(h)),
{
    let t = digest_text(h);
    let hex = hex_lower(h);
    assert(scheme().len() == 7);
    assert(t.subrange(0, 7) =~= scheme());
    assert(after_scheme(t) =~= hex);
    lemma_hex_lower_chars(h);
    lemma_hex_lower_len(h);
    lemma_lower_all_of_lower_hex(hex);
    assert(canonical(t) =~= t);
}

} // verus!
