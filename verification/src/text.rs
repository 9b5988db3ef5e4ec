//! Verified text helpers: decimal rendering, lexicographic comparison and
//! path component extraction, plus thin trusted fronts for the std string
//! transformations the library cannot state directly.

use vstd::prelude::*;

verus! {

/// The character for one decimal digit.
pub open spec fn dec_digit_char(d: int) -> char {
    if d == 0 {
        '0'
    } else if d == 1 {
        '1'
    } else if d == 2 {
        '2'
    } else if d == 3 {
        '3'
    } else if d == 4 {
        '4'
    } else if d == 5 {
        '5'
    } else if d == 6 {
        '6'
    } else if d == 7 {
        '7'
    } else if d == 8 {
        '8'
    } else {
        '9'
    }
}

/// The decimal rendering of a natural number, most significant digit first.
pub open spec fn dec_str_of(n: nat) -> Seq<char>
    decreases n,
{
    if n < 10 {
        seq![dec_digit_char(n as int)]
    } else {
        dec_str_of(n / 10).push(dec_digit_char((n % 10) as int))
    }
}

/// One decimal digit as a string slice.
fn digit_str(d: u64) -> (r: &'static str)
    requires
        d < 10,
    ensures
        r@ == seq![dec_digit_char(d as int)],
{
    proof {
        reveal_strlit("0");
        reveal_strlit("1");
        reveal_strlit("2");
        reveal_strlit("3");
        reveal_strlit("4");
        reveal_strlit("5");
        reveal_strlit("6");
        reveal_strlit("7");
        reveal_strlit("8");
        reveal_strlit("9");
    }
    if d == 0 {
        let r = "0";
        assert(r@ =~= seq![dec_digit_char(0)]);
        r
    } else if d == 1 {
        let r = "1";
        assert(r@ =~= seq![dec_digit_char(1)]);
        r
    } else if d == 2 {
        let r = "2";
        assert(r@ =~= seq![dec_digit_char(2)]);
        r
    } else if d == 3 {
        let r = "3";
        assert(r@ =~= seq![dec_digit_char(3)]);
        r
    } else if d == 4 {
        let r = "4";
        assert(r@ =~= seq![dec_digit_char(4)]);
        r
    } else if d == 5 {
        let r = "5";
        assert(r@ =~= seq![dec_digit_char(5)]);
        r
    } else if d == 6 {
        let r = "6";
        assert(r@ =~= seq![dec_digit_char(6)]);
        r
    } else if d == 7 {
        let r = "7";
        assert(r@ =~= seq![dec_digit_char(7)]);
        r
    } else if d == 8 {
        let r = "8";
        assert(r@ =~= seq![dec_digit_char(8)]);
        r
    } else {
        let r = "9";
        assert(r@ =~= seq![dec_digit_char(9)]);
        r
    }
}

/// Render an unsigned number in decimal.
pub fn u64_to_string(n: u64) -> (s: String)
    ensures
        s@ == dec_str_of(n as nat),
    decreases n,
{
    if n < 10 {
        String::from_str(digit_str(n))
    } else {
        let mut s = u64_to_string(n / 10);
        s.append(digit_str(n % 10));
        proof {
            assert(s@ =~= dec_str_of((n / 10) as nat).push(dec_digit_char((n % 10) as int)));
        }
        s
    }
}

/// Lexicographic order on character sequences by code point.
pub open spec fn lex_le(a: Seq<char>, b: Seq<char>) -> bool
    decreases a.len(),
{
    if a.len() == 0 {
        true
    } else if b.len() == 0 {
        false
    } else if (a[0] as u32) < (b[0] as u32) {
        true
    } else if (a[0] as u32) > (b[0] as u32) {
        false
    } else {
        lex_le(a.drop_first(), b.drop_first())
    }
}

/// The lexicographic order relates every pair of sequences one way or the other.
pub proof fn lemma_lex_le_total(a: Seq<char>, b: Seq<char>)
    ensures
        lex_le(a, b) || lex_le(b, a),
    decreases a.len(),
{
    if a.len() == 0 || b.len() == 0 {
    } else if (a[0] as u32) == (b[0] as u32) {
        lemma_lex_le_total(a.drop_first(), b.drop_first());
    }
}

/// The lexicographic order is transitive.
pub proof fn lemma_lex_le_trans(a: Seq<char>, b: Seq<char>, c: Seq<char>)
    requires
        lex_le(a, b),
        lex_le(b, c),
    ensures
        lex_le(a, c),
    decreases a.len(),
{
    if a.len() == 0 {
    } else {
        if (a[0] as u32) == (b[0] as u32) && (b[0] as u32) == (c[0] as u32) {
            lemma_lex_le_trans(a.drop_first(), b.drop_first(), c.drop_first());
        }
    }
}

/// Whether two strings hold the same characters.
pub fn str_eq(a: &str, b: &str) -> (r: bool)
    ensures
        r == (a@ == b@),
{
    let alen = a.unicode_len();
    let blen = b.unicode_len();
    if alen != blen {
        return false;
    }
    let mut i: usize = 0;
    while i < alen
        invariant
            alen == a@.len(),
            blen == b@.len(),
            alen == blen,
            i <= alen,
            forall|j: int| 0 <= j < i ==> a@[j] == b@[j],
        decreases alen - i,
    {
        let ca = a.get_char(i);
        let cb = b.get_char(i);
        if ca as u32 != cb as u32 {
            return false;
        }
        proof {
            vstd::utf8::char_u32_cast(a@[i as int], a@[i as int] as u32);
            vstd::utf8::char_u32_cast(b@[i as int], b@[i as int] as u32);
        }
        i = i + 1;
    }
    proof {
        assert(a@ =~= b@);
    }
    true
}

/// Compare two strings lexicographically by code point.
pub fn str_lex_le(a: &str, b: &str) -> (r: bool)
    ensures
        r == lex_le(a@, b@),
{
    let alen = a.unicode_len();
    let blen = b.unicode_len();
    let mut i: usize = 0;
    proof {
        assert(a@.skip(0) =~= a@);
        assert(b@.skip(0) =~= b@);
    }
    loop
        invariant
            i <= alen,
            i <= blen,
            alen == a@.len(),
            blen == b@.len(),
            lex_le(a@, b@) == lex_le(a@.skip(i as int), b@.skip(i as int)),
        decreases alen - i,
    {
        if i == alen {
            return true;
        }
        if i == blen {
            return false;
        }
        let ca = a.get_char(i);
        let cb = b.get_char(i);
        if (ca as u32) < (cb as u32) {
            return true;
        }
        if (ca as u32) > (cb as u32) {
            return false;
        }
        proof {
            assert(a@.skip(i as int).drop_first() =~= a@.skip(i + 1));
            assert(b@.skip(i as int).drop_first() =~= b@.skip(i + 1));
        }
        i = i + 1;
    }
}

/// The characters after the last `/`; empty when the sequence ends in `/`.
pub open spec fn after_last_slash(s: Seq<char>) -> Seq<char>
    decreases s.len(),
{
    if s.len() == 0 {
        s
    } else if s.last() == '/' {
        Seq::empty()
    } else {
        after_last_slash(s.drop_last()).push(s.last())
    }
}

/// The sequence with every trailing `/` removed.
pub open spec fn strip_trailing_slashes(s: Seq<char>) -> Seq<char>
    decreases s.len(),
{
    if s.len() > 0 && s.last() == '/' {
        strip_trailing_slashes(s.drop_last())
    } else {
        s
    }
}

/// The last path component of a path, or `unknown` when there is none.
pub open spec fn file_name_of(path: Seq<char>) -> Seq<char> {
    let c = after_last_slash(strip_trailing_slashes(path));
    if c.len() == 0 {
        "unknown"@
    } else {
        c
    }
}

/// The characters after the last `/`, as a string.
pub fn after_last_slash_str(s: &str) -> (r: String)
    ensures
        r@ == after_last_slash(s@),
    decreases s@.len(),
{
    let n = s.unicode_len();
    if n == 0 {
        String::new()
    } else if s.get_char(n - 1) == '/' {
        String::new()
    } else {
        let head = s.substring_char(0, n - 1);
        proof {
            assert(head@ =~= s@.drop_last());
        }
        let mut r = after_last_slash_str(head);
        r.append(s.substring_char(n - 1, n));
        proof {
            assert(s@.subrange(n - 1, n as int) =~= seq![s@.last()]);
            assert(r@ =~= after_last_slash(s@.drop_last()).push(s@.last()));
        }
        r
    }
}

/// The string with every trailing `/` removed.
pub fn strip_trailing_slashes_str<'a>(s: &'a str) -> (r: &'a str)
    ensures
        r@ == strip_trailing_slashes(s@),
    decreases s@.len(),
{
    let n = s.unicode_len();
    if n > 0 && s.get_char(n - 1) == '/' {
        let head = s.substring_char(0, n - 1);
        proof {
            assert(head@ =~= s@.drop_last());
        }
        strip_trailing_slashes_str(head)
    } else {
        s
    }
}

/// The last path component of a path; `unknown` when the path has none.
pub fn file_name_of_path(path: &str) -> (r: String)
    ensures
        r@ == file_name_of(path@),
{
    let stripped = strip_trailing_slashes_str(path);
    let c = after_last_slash_str(stripped);
    if c.unicode_len() == 0 {
        String::from_str("unknown")
    } else {
        c
    }
}

/// Render `host:port` for a transport address.
pub fn host_port_string(host: &str, port: u16) -> (r: String)
    ensures
        r@ == host@ + ":"@ + dec_str_of(port as nat),
{
    let mut r = String::from_str(host);
    r.append(":");
    let p = u64_to_string(port as u64);
    r.append(p.as_str());
    r
}

/// What `str::to_lowercase` returns: a function of the characters alone.
pub uninterp spec fn lower_of(s: Seq<char>) -> Seq<char>;

/// Relies on `str::to_lowercase` for the Unicode lowercase mapping; the
/// result depends on the input characters alone.
#[verifier::external_body]
pub fn lowercase(s: &str) -> (r: String)
    ensures
        r@ == lower_of(s@),
{
    s.to_lowercase()
}

/// What `str::trim` returns: the input without leading and trailing whitespace.
pub uninterp spec fn trim_of(s: Seq<char>) -> Seq<char>;

/// Relies on `str::trim`: removes leading and trailing whitespace, a
/// function of the input characters alone.
#[verifier::external_body]
pub fn trim_str<'a>(s: &'a str) -> (r: &'a str)
    ensures
        r@ == trim_of(s@),
{
    s.trim()
}

/// What UTF-8 decoding yields for a byte sequence: the characters when the
/// bytes are valid UTF-8, nothing otherwise.
pub uninterp spec fn utf8_of(b: Seq<u8>) -> Option<Seq<char>>;

/// Relies on `String::from_utf8`: succeeds with the decoded characters
/// exactly on valid UTF-8. The error branch hands back the error's text.
#[verifier::external_body]
pub fn string_from_utf8(b: Vec<u8>) -> (r: Result<String, String>)
    ensures
        match r {
            Ok(s) => utf8_of(b@) == Some(s@),
            Err(_) => utf8_of(b@) is None,
        },
{
    match String::from_utf8(b) {
        Ok(s) => Ok(s),
        Err(e) => Err(format!("{}", e)),
    }
}

/// What `String::from_utf8_lossy` returns: a function of the bytes alone.
pub uninterp spec fn utf8_lossy_of(b: Seq<u8>) -> Seq<char>;

/// Relies on `String::from_utf8_lossy`: decodes UTF-8, replacing invalid
/// sequences with the replacement character; a function of the bytes alone.
#[verifier::external_body]
pub fn utf8_lossy(b: &[u8]) -> (r: String)
    ensures
        r@ == utf8_lossy_of(b@),
{
    String::from_utf8_lossy(b).into_owned()
}

} // verus!
