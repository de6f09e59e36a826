//! Text helpers the command surface and the device snapshots are built
//! on: ASCII lowercasing, `%20` unescaping, decimal parsing and
//! formatting, canonical UUID text and JSON string escaping. Each exec
//! function is specified against a direct mathematical statement of the
//! text it produces.
use vstd::prelude::*;

verus! {

/// The ten decimal digit characters, lowest first.
pub const DIGIT_CHARS: [char; 10] = ['0', '1', '2', '3', '4', '5', '6', '7', '8', '9'];

/// The sixteen lower-case hexadecimal digit characters, lowest first.
pub const HEX_CHARS: [char; 16] = [
    '0',
    '1',
    '2',
    '3',
    '4',
    '5',
    '6',
    '7',
    '8',
    '9',
    'a',
    'b',
    'c',
    'd',
    'e',
    'f',
];

/// Relies on std's `String::push`: it appends exactly the one character.
#[verifier::external_body]
pub(crate) fn push_char(s: &mut String, c: char)
    ensures
        final(s)@ == old(s)@.push(c),
{
    s.push(c);
}

/// Whether two string slices hold the same characters.
pub fn str_eq(a: &str, b: &str) -> (r: bool)
    ensures
        r == (a@ == b@),
{
    let n = a.unicode_len();
    if n != b.unicode_len() {
        assert(a@ != b@);
        return false;
    }
    for i in 0..n
        invariant
            n == a@.len() == b@.len(),
            forall|j: int| 0 <= j < i ==> a@[j] == b@[j],
    {
        if a.get_char(i) != b.get_char(i) {
            return false;
        }
    }
    proof {
        assert(a@ =~= b@);
    }
    true
}

/// An upper-case ASCII letter mapped to its lower-case form; every other
/// character kept as it is.
pub open spec fn spec_lower_char(c: char) -> char {
    if 65 <= c as int <= 90 {
        (((c as u8) + 32) as char)
    } else {
        c
    }
}

/// The string with every upper-case ASCII letter lowered.
pub open spec fn spec_lower(s: Seq<char>) -> Seq<char> {
    s.map_values(|c: char| spec_lower_char(c))
}

/// Lower-case every upper-case ASCII letter of the string. Characters
/// outside ASCII are kept as they are.
pub fn ascii_lower(s: &str) -> (r: String)
    ensures
        r@ == spec_lower(s@),
{
    let n = s.unicode_len();
    let mut r = String::new();
    for i in 0..n
        invariant
            n == s@.len(),
            r@ == spec_lower(s@.take(i as int)),
    {
        let c = s.get_char(i);
        let u: u32 = c as u32;
        if 65 <= u && u <= 90 {
            push_char(&mut r, ((c as u8) + 32) as char);
        } else {
            push_char(&mut r, c);
        }
        proof {
            assert(s@.take(i + 1) == s@.take(i as int).push(s@[i as int]));
            assert(spec_lower(s@.take(i + 1)) =~= spec_lower(s@.take(i as int)).push(
                spec_lower_char(s@[i as int]),
            ));
        }
    }
    proof {
        assert(s@.take(n as int) == s@);
    }
    r
}

/// The string with every `%20` escape replaced by a space, scanning left
/// to right without overlap.
pub open spec fn spec_unescape_spaces(s: Seq<char>) -> Seq<char>
    decreases s.len(),
{
    if s.len() >= 3 && s[0] == '%' && s[1] == '2' && s[2] == '0' {
        seq![' '] + spec_unescape_spaces(s.skip(3))
    } else if s.len() > 0 {
        seq![s[0]] + spec_unescape_spaces(s.skip(1))
    } else {
        Seq::empty()
    }
}

/// Replace every `%20` escape with a space, left to right.
pub fn unescape_spaces(s: &str) -> (r: String)
    ensures
        r@ == spec_unescape_spaces(s@),
{
    let n = s.unicode_len();
    let mut r = String::new();
    let mut i: usize = 0;
    proof {
        assert(s@.skip(0) =~= s@);
        assert(r@ + spec_unescape_spaces(s@) =~= spec_unescape_spaces(s@));
    }
    while i < n
        invariant
            n == s@.len(),
            i <= n,
            spec_unescape_spaces(s@) == r@ + spec_unescape_spaces(s@.skip(i as int)),
        decreases n - i,
    {
        let ghost rest = s@.skip(i as int);
        if n - i > 2 && s.get_char(i) == '%' && s.get_char(i + 1) == '2' && s.get_char(i + 2)
            == '0' {
            proof {
                assert(rest.len() >= 3 && rest[0] == '%' && rest[1] == '2' && rest[2] == '0');
                assert(rest.skip(3) =~= s@.skip(i + 3));
                assert(spec_unescape_spaces(rest) == seq![' '] + spec_unescape_spaces(
                    s@.skip(i + 3),
                ));
            }
            push_char(&mut r, ' ');
            proof {
                assert(r@ + spec_unescape_spaces(s@.skip(i + 3)) =~= spec_unescape_spaces(s@));
            }
            i = i + 3;
        } else {
            proof {
                assert(!(rest.len() >= 3 && rest[0] == '%' && rest[1] == '2' && rest[2] == '0'));
                assert(rest.len() > 0 && rest[0] == s@[i as int]);
                assert(rest.skip(1) =~= s@.skip(i + 1));
                assert(spec_unescape_spaces(rest) == seq![s@[i as int]] + spec_unescape_spaces(
                    s@.skip(i + 1),
                ));
            }
            push_char(&mut r, s.get_char(i));
            proof {
                assert(r@ + spec_unescape_spaces(s@.skip(i + 1)) =~= spec_unescape_spaces(s@));
            }
            i = i + 1;
        }
    }
    proof {
        assert(s@.skip(n as int) =~= Seq::<char>::empty());
        assert(r@ =~= r@ + spec_unescape_spaces(Seq::<char>::empty()));
    }
    r
}

/// Whether the characters are one or more decimal digits.
pub open spec fn spec_all_digits(s: Seq<char>) -> bool {
    s.len() > 0 && forall|i: int| 0 <= i < s.len() ==> 48 <= (#[trigger] s[i]) as int <= 57
}

/// The value of a run of decimal digits, most significant first.
pub open spec fn spec_digits_val(s: Seq<char>) -> int
    decreases s.len(),
{
    if s.len() == 0 {
        0
    } else {
        spec_digits_val(s.drop_last()) * 10 + (s.last() as int - 48)
    }
}

/// The digit run of a decimal number text: an optional single leading
/// `+` sign is not part of it.
pub open spec fn spec_number_body(s: Seq<char>) -> Seq<char> {
    if s.len() > 0 && s[0] == '+' {
        s.skip(1)
    } else {
        s
    }
}

/// What parsing the text as a `usize` yields: the value of its digits if
/// the text is an optional `+` sign followed by digits only and the value
/// fits, nothing otherwise.
pub open spec fn spec_parse_usize(s: Seq<char>) -> Option<usize> {
    if spec_all_digits(spec_number_body(s)) && spec_digits_val(spec_number_body(s)) <= usize::MAX {
        Some(spec_digits_val(spec_number_body(s)) as usize)
    } else {
        None
    }
}

/// A run of digits never has a negative value.
proof fn lemma_digits_val_nonneg(s: Seq<char>)
    requires
        forall|j: int| 0 <= j < s.len() ==> 48 <= (#[trigger] s[j]) as int <= 57,
    ensures
        spec_digits_val(s) >= 0,
    decreases s.len(),
{
    if s.len() > 0 {
        lemma_digits_val_nonneg(s.drop_last());
    }
}

/// A longer digit run is never worth less than a prefix of it.
proof fn lemma_digits_val_prefix(s: Seq<char>, i: int)
    requires
        0 <= i <= s.len(),
        forall|j: int| 0 <= j < s.len() ==> 48 <= (#[trigger] s[j]) as int <= 57,
    ensures
        spec_digits_val(s.take(i)) <= spec_digits_val(s),
    decreases s.len() - i,
{
    if i < s.len() {
        assert(s.take(i + 1).drop_last() =~= s.take(i));
        assert(spec_digits_val(s.take(i + 1)) == spec_digits_val(s.take(i)) * 10 + (s[i] as int
            - 48));
        assert(forall|j: int|
            0 <= j < s.take(i).len() ==> 48 <= (#[trigger] s.take(i)[j]) as int <= 57);
        lemma_digits_val_nonneg(s.take(i));
        lemma_digits_val_prefix(s, i + 1);
    } else {
        assert(s.take(i) =~= s);
    }
}

/// Parse the text as a `usize`, accepting an optional leading `+` sign
/// followed by one or more decimal digits, and rejecting values that do
/// not fit.
#[verifier::rlimit(60)]
pub fn parse_usize_text(s: &str) -> (r: Option<usize>)
    ensures
        r == spec_parse_usize(s@),
{
    let n = s.unicode_len();
    let start: usize = if n > 0 && s.get_char(0) == '+' {
        1
    } else {
        0
    };
    proof {
        assert(spec_number_body(s@) =~= s@.skip(start as int));
    }
    if start >= n {
        assert(!spec_all_digits(spec_number_body(s@)));
        return None;
    }
    let ghost body = s@.skip(start as int);
    let mut acc: usize = 0;
    let mut i: usize = start;
    while i < n
        invariant
            n == s@.len(),
            start <= i <= n,
            body == s@.skip(start as int),
            body == spec_number_body(s@),
            start < n,
            forall|j: int| 0 <= j < i - start ==> 48 <= (#[trigger] body[j]) as int <= 57,
            acc == spec_digits_val(body.take(i - start)),
        decreases n - i,
    {
        let c = s.get_char(i);
        let u: u32 = c as u32;
        if u < 48 || u > 57 {
            proof {
                assert(body[i - start] == s@[i as int]);
                assert(!(48 <= body[i - start] as int <= 57));
                assert(!spec_all_digits(body));
            }
            return None;
        }
        let d: usize = (u - 48) as usize;
        proof {
            assert(body.take(i - start + 1).drop_last() =~= body.take(i - start));
            assert(body.take(i - start + 1).last() == body[i - start]);
            assert(body[i - start] == s@[i as int]);
        }
        if acc > (usize::MAX - d) / 10 {
            // The digits read so far already outgrow the type; the rest
            // of the run can only make the value larger.
            proof {
                assert(acc * 10 + d > usize::MAX) by (nonlinear_arith)
                    requires
                        acc > (usize::MAX - d) / 10,
                        0 <= d <= 9,
                ;
                if spec_all_digits(body) {
                    lemma_digits_val_prefix(body, i - start + 1);
                }
            }
            return None;
        }
        proof {
            assert(acc * 10 + d <= usize::MAX) by (nonlinear_arith)
                requires
                    acc <= (usize::MAX - d) / 10,
                    0 <= d <= 9,
            ;
        }
        acc = acc * 10 + d;
        i = i + 1;
    }
    proof {
        assert(body.take(n - start) =~= body);
        assert(spec_all_digits(body));
    }
    Some(acc)
}

/// The decimal text of a number, most significant digit first, with no
/// sign and no leading zero except for the number zero itself.
pub open spec fn spec_dec_digits(n: int) -> Seq<char>
    decreases n,
{
    if n < 10 {
        seq![DIGIT_CHARS@[if n < 0 {
            0
        } else {
            n
        }]]
    } else {
        spec_dec_digits(n / 10).push(DIGIT_CHARS@[n % 10])
    }
}

/// Format a number as decimal text.
pub fn format_u64(n: u64) -> (r: String)
    ensures
        r@ == spec_dec_digits(n as int),
    decreases n,
{
    if n < 10 {
        let mut r = String::new();
        push_char(&mut r, DIGIT_CHARS[n as usize]);
        proof {
            assert(Seq::<char>::empty().push(DIGIT_CHARS@[n as int]) =~= seq![
                DIGIT_CHARS@[n as int],
            ]);
        }
        r
    } else {
        let mut r = format_u64(n / 10);
        push_char(&mut r, DIGIT_CHARS[(n % 10) as usize]);
        r
    }
}

/// The fixed-width hexadecimal text of a number, lower case, most
/// significant nibble first.
pub open spec fn spec_hex_fixed(n: int, width: nat) -> Seq<char>
    decreases width,
{
    if width == 0 {
        Seq::empty()
    } else {
        spec_hex_fixed(n / 16, (width - 1) as nat).push(HEX_CHARS@[n % 16])
    }
}

/// The fixed-width hexadecimal digits of a number, as characters.
fn hex_fixed(n: u128, width: u32) -> (r: Vec<char>)
    ensures
        r@ == spec_hex_fixed(n as int, width as nat),
        r@.len() == width,
    decreases width,
{
    if width == 0 {
        Vec::new()
    } else {
        let mut r = hex_fixed(n / 16, width - 1);
        r.push(HEX_CHARS[(n % 16) as usize]);
        r
    }
}

/// The canonical text of a 128-bit identifier: 32 lower-case hexadecimal
/// digits, most significant first, hyphenated 8-4-4-4-12.
pub open spec fn spec_uuid_text(u: u128) -> Seq<char> {
    let h = spec_hex_fixed(u as int, 32);
    h.subrange(0, 8) + seq!['-'] + h.subrange(8, 12) + seq!['-'] + h.subrange(12, 16) + seq!['-']
        + h.subrange(16, 20) + seq!['-'] + h.subrange(20, 32)
}

/// Format a 128-bit identifier as its canonical hyphenated text.
pub fn format_uuid(u: u128) -> (r: String)
    ensures
        r@ == spec_uuid_text(u),
{
    let h = hex_fixed(u, 32);
    let ghost hs = h@;
    let mut r = String::new();
    for i in 0..8usize
        invariant
            h@ == hs && hs.len() == 32,
            r@ == hs.subrange(0, i as int),
    {
        push_char(&mut r, h[i]);
        proof {
            assert(hs.subrange(0, i as int).push(hs[i as int]) =~= hs.subrange(0, i + 1));
        }
    }
    push_char(&mut r, '-');
    let ghost p1 = hs.subrange(0, 8) + seq!['-'];
    assert(r@ =~= p1);
    for i in 8..12usize
        invariant
            h@ == hs && hs.len() == 32,
            r@ == p1 + hs.subrange(8, i as int),
    {
        push_char(&mut r, h[i]);
        proof {
            assert((p1 + hs.subrange(8, i as int)).push(hs[i as int]) =~= p1 + hs.subrange(
                8,
                i + 1,
            ));
        }
    }
    push_char(&mut r, '-');
    let ghost p2 = p1 + hs.subrange(8, 12) + seq!['-'];
    assert(r@ =~= p2);
    for i in 12..16usize
        invariant
            h@ == hs && hs.len() == 32,
            r@ == p2 + hs.subrange(12, i as int),
    {
        push_char(&mut r, h[i]);
        proof {
            assert((p2 + hs.subrange(12, i as int)).push(hs[i as int]) =~= p2 + hs.subrange(
                12,
                i + 1,
            ));
        }
    }
    push_char(&mut r, '-');
    let ghost p3 = p2 + hs.subrange(12, 16) + seq!['-'];
    assert(r@ =~= p3);
    for i in 16..20usize
        invariant
            h@ == hs && hs.len() == 32,
            r@ == p3 + hs.subrange(16, i as int),
    {
        push_char(&mut r, h[i]);
        proof {
            assert((p3 + hs.subrange(16, i as int)).push(hs[i as int]) =~= p3 + hs.subrange(
                16,
                i + 1,
            ));
        }
    }
    push_char(&mut r, '-');
    let ghost p4 = p3 + hs.subrange(16, 20) + seq!['-'];
    assert(r@ =~= p4);
    for i in 20..32usize
        invariant
            h@ == hs && hs.len() == 32,
            r@ == p4 + hs.subrange(20, i as int),
    {
        push_char(&mut r, h[i]);
        proof {
            assert((p4 + hs.subrange(20, i as int)).push(hs[i as int]) =~= p4 + hs.subrange(
                20,
                i + 1,
            ));
        }
    }
    proof {
        assert(r@ =~= spec_uuid_text(u));
    }
    r
}

/// A character as it stands inside a JSON string literal: quote and
/// backslash escaped, control characters in `\u00..` form, everything
/// else as itself.
pub open spec fn spec_json_escape_char(c: char) -> Seq<char> {
    if c == '"' {
        seq!['\\', '"']
    } else if c == '\\' {
        seq!['\\', '\\']
    } else if (c as int) < 32 {
        seq!['\\', 'u', '0', '0', HEX_CHARS@[(c as int) / 16], HEX_CHARS@[(c as int) % 16]]
    } else {
        seq![c]
    }
}

/// The body of a JSON string literal holding the text.
pub open spec fn spec_json_escape(s: Seq<char>) -> Seq<char>
    decreases s.len(),
{
    if s.len() == 0 {
        Seq::empty()
    } else {
        spec_json_escape(s.drop_last()) + spec_json_escape_char(s.last())
    }
}

/// Escape the text for use inside a JSON string literal.
pub fn json_escape(s: &str) -> (r: String)
    ensures
        r@ == spec_json_escape(s@),
{
    let n = s.unicode_len();
    let mut r = String::new();
    for i in 0..n
        invariant
            n == s@.len(),
            r@ == spec_json_escape(s@.take(i as int)),
    {
        let c = s.get_char(i);
        let u: u32 = c as u32;
        if c == '"' {
            push_char(&mut r, '\\');
            push_char(&mut r, '"');
        } else if c == '\\' {
            push_char(&mut r, '\\');
            push_char(&mut r, '\\');
        } else if u < 32 {
            push_char(&mut r, '\\');
            push_char(&mut r, 'u');
            push_char(&mut r, '0');
            push_char(&mut r, '0');
            push_char(&mut r, HEX_CHARS[(u / 16) as usize]);
            push_char(&mut r, HEX_CHARS[(u % 16) as usize]);
        } else {
            push_char(&mut r, c);
        }
        proof {
            assert(s@.take(i + 1).drop_last() =~= s@.take(i as int));
            assert(s@.take(i + 1).last() == s@[i as int]);
            assert(r@ =~= spec_json_escape(s@.take(i as int)) + spec_json_escape_char(
                s@[i as int],
            ));
        }
    }
    proof {
        assert(s@.take(n as int) =~= s@);
    }
    r
}

} // verus!
