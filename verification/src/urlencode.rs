//! Form-urlencoding of query values.
//!
//! Tag names travel inside a query string, so they are encoded the way HTML
//! forms encode values: ASCII letters, digits and `*-._` stay as they are, a
//! space becomes `+`, and every other character is written as the
//! percent-encoded bytes of its UTF-8 encoding, with upper-case hex digits.

use vstd::prelude::*;
use vstd::string::StrSliceExecFns;
use vstd::string::StringExecFns;

verus! {

/// Characters that survive form-urlencoding unchanged.
pub open spec fn is_url_kept_char(c: char) -> bool {
    ('0' <= c && c <= '9') || ('a' <= c && c <= 'z') || ('A' <= c && c <= 'Z') || c == '*' || c
        == '-' || c == '.' || c == '_'
}

/// The upper-case hex digit for a value below sixteen.
pub open spec fn hex_char(d: u8) -> char {
    if d == 0 {
        '0'
    } else if d == 1 {
        '1'
    } else if d == 2 {
        '2'
    } else if d == 3 {
        '3'
    } else if d == 4 {
        '4'
    } else if d == 5 {
        '5'
    } else if d == 6 {
        '6'
    } else if d == 7 {
        '7'
    } else if d == 8 {
        '8'
    } else if d == 9 {
        '9'
    } else if d == 10 {
        'A'
    } else if d == 11 {
        'B'
    } else if d == 12 {
        'C'
    } else if d == 13 {
        'D'
    } else if d == 14 {
        'E'
    } else {
        'F'
    }
}

/// The UTF-8 encoding of a character, as the byte-level definition of the
/// format gives it.
pub open spec fn char_utf8(c: char) -> Seq<u8> {
    let u = c as u32;
    if u < 0x80 {
        seq![u as u8]
    } else if u < 0x800 {
        seq![(0xC0u32 | (u >> 6)) as u8, (0x80u32 | (u & 0x3F)) as u8]
    } else if u < 0x10000 {
        seq![
            (0xE0u32 | (u >> 12)) as u8,
            (0x80u32 | ((u >> 6) & 0x3F)) as u8,
            (0x80u32 | (u & 0x3F)) as u8,
        ]
    } else {
        seq![
            (0xF0u32 | (u >> 18)) as u8,
            (0x80u32 | ((u >> 12) & 0x3F)) as u8,
            (0x80u32 | ((u >> 6) & 0x3F)) as u8,
            (0x80u32 | (u & 0x3F)) as u8,
        ]
    }
}

/// The percent-encoding of a byte sequence: `%XY` for every byte.
pub open spec fn percent_encoded(bytes: Seq<u8>) -> Seq<char>
    decreases bytes.len(),
{
    if bytes.len() == 0 {
        Seq::<char>::empty()
    } else {
        seq!['%', hex_char(bytes[0] / 16), hex_char(bytes[0] % 16)] + percent_encoded(
            bytes.skip(1),
        )
    }
}

/// What one character contributes to a form-urlencoded string.
pub open spec fn form_urlencoded_char(c: char) -> Seq<char> {
    if is_url_kept_char(c) {
        seq![c]
    } else if c == ' ' {
        seq!['+']
    } else {
        percent_encoded(char_utf8(c))
    }
}

/// The form-urlencoding of a whole character sequence.
pub open spec fn form_urlencoded(s: Seq<char>) -> Seq<char>
    decreases s.len(),
{
    if s.len() == 0 {
        Seq::<char>::empty()
    } else {
        form_urlencoded_char(s[0]) + form_urlencoded(s.skip(1))
    }
}

/// Appending one encoded character at a time builds the encoding of the
/// whole prefix.
proof fn lemma_form_urlencoded_snoc(s: Seq<char>, i: int)
    requires
        0 <= i < s.len(),
    ensures
        form_urlencoded(s.take(i + 1)) == form_urlencoded(s.take(i)) + form_urlencoded_char(s[i]),
    decreases i,
{
    let a = s.take(i + 1);
    let b = s.take(i);
    if i == 0 {
        assert(a =~= seq![s[0]]);
        assert(b =~= Seq::<char>::empty());
        assert(a.skip(1) =~= Seq::<char>::empty());
        assert(form_urlencoded(a) == form_urlencoded_char(s[0]) + form_urlencoded(a.skip(1)));
        assert(form_urlencoded_char(s[0]) + Seq::<char>::empty() =~= form_urlencoded_char(s[0]));
        assert(form_urlencoded(b) + form_urlencoded_char(s[0]) =~= form_urlencoded_char(s[0]));
    } else {
        lemma_form_urlencoded_snoc(s.skip(1), i - 1);
        assert(a[0] == s[0]);
        assert(a.skip(1) =~= s.skip(1).take(i));
        assert(b.skip(1) =~= s.skip(1).take(i - 1));
        assert(s.skip(1)[i - 1] == s[i]);
        assert(form_urlencoded(a) == form_urlencoded_char(s[0]) + form_urlencoded(s.skip(1).take(
            i,
        )));
        assert(form_urlencoded(b) == form_urlencoded_char(s[0]) + form_urlencoded(s.skip(1).take(i
            - 1,
        )));
        assert(form_urlencoded(a) =~= form_urlencoded(b) + form_urlencoded_char(s[i]));
    }
}

/// The upper-case hex digit for a value below sixteen.
fn hex_digit_str(d: u8) -> (r: &'static str)
    requires
        d < 16,
    ensures
        r@ =~= seq![hex_char(d)],
{
    proof {
        reveal_strlit("0");
        reveal_strlit("1");
        reveal_strlit("2");
        reveal_strlit("3");
        reveal_strlit("4");
        reveal_strlit("5");
        reveal_strlit("6");
        reveal_strlit("7");
        reveal_strlit("8");
        reveal_strlit("9");
        reveal_strlit("A");
        reveal_strlit("B");
        reveal_strlit("C");
        reveal_strlit("D");
        reveal_strlit("E");
        reveal_strlit("F");
    }
    match d {
        0 => "0",
        1 => "1",
        2 => "2",
        3 => "3",
        4 => "4",
        5 => "5",
        6 => "6",
        7 => "7",
        8 => "8",
        9 => "9",
        10 => "A",
        11 => "B",
        12 => "C",
        13 => "D",
        14 => "E",
        _ => "F",
    }
}

/// The UTF-8 bytes of one character.
fn utf8_bytes_of_char(c: char) -> (r: Vec<u8>)
    ensures
        r@ =~= char_utf8(c),
{
    let u = c as u32;
    let mut out: Vec<u8> = Vec::new();
    if u < 0x80 {
        out.push(u as u8);
    } else if u < 0x800 {
        out.push((0xC0u32 | (u >> 6u32)) as u8);
        out.push((0x80u32 | (u & 0x3Fu32)) as u8);
    } else if u < 0x10000 {
        out.push((0xE0u32 | (u >> 12u32)) as u8);
        out.push((0x80u32 | ((u >> 6u32) & 0x3Fu32)) as u8);
        out.push((0x80u32 | (u & 0x3Fu32)) as u8);
    } else {
        out.push((0xF0u32 | (u >> 18u32)) as u8);
        out.push((0x80u32 | ((u >> 12u32) & 0x3Fu32)) as u8);
        out.push((0x80u32 | ((u >> 6u32) & 0x3Fu32)) as u8);
        out.push((0x80u32 | (u & 0x3Fu32)) as u8);
    }
    out
}

/// Form-urlencodes a string.
#[verifier::loop_isolation(false)]
pub fn form_urlencode(s: &str) -> (r: String)
    ensures
        r@ == form_urlencoded(s@),
{
    let n = s.unicode_len();
    let mut out = String::new();
    let mut i: usize = 0;
    while i < n
        invariant
            i <= n,
            n == s@.len(),
            out@ == form_urlencoded(s@.take(i as int)),
        decreases n - i,
    {
        let c = s.get_char(i);
        if is_kept(c) {
            let piece = s.substring_char(i, i + 1);
            proof {
                assert(piece@ =~= seq![s@[i as int]]);
            }
            out.append(piece);
        } else if c == ' ' {
            proof {
                reveal_strlit("+");
            }
            out.append("+");
            proof {
                assert(form_urlencoded_char(c) =~= "+"@);
            }
        } else {
            let bytes = utf8_bytes_of_char(c);
            let m = bytes.len();
            let mut j: usize = 0;
            proof {
                reveal_strlit("%");
            }
            while j < m
                invariant
                    j <= m,
                    m == bytes@.len(),
                    out@ == form_urlencoded(s@.take(i as int)) + percent_encoded(
                        bytes@.take(j as int),
                    ),
                decreases m - j,
            {
                let b = bytes[j];
                out.append("%");
                out.append(hex_digit_str(b / 16));
                out.append(hex_digit_str(b % 16));
                proof {
                    lemma_percent_snoc(bytes@, j as int);
                }
                j += 1;
            }
            proof {
                assert(bytes@.take(m as int) =~= bytes@);
            }
        }
        proof {
            lemma_form_urlencoded_snoc(s@, i as int);
        }
        i += 1;
    }
    proof {
        assert(s@.take(n as int) =~= s@);
    }
    out
}

/// Appending one `%XY` group at a time builds the encoding of the whole
/// byte prefix.
proof fn lemma_percent_snoc(bytes: Seq<u8>, j: int)
    requires
        0 <= j < bytes.len(),
    ensures
        percent_encoded(bytes.take(j + 1)) == percent_encoded(bytes.take(j)) + seq![
            '%',
            hex_char(bytes[j] / 16),
            hex_char(bytes[j] % 16),
        ],
    decreases j,
{
    let a = bytes.take(j + 1);
    let b = bytes.take(j);
    if j == 0 {
        assert(a =~= seq![bytes[0]]);
        assert(b =~= Seq::<u8>::empty());
        assert(a.skip(1) =~= Seq::<u8>::empty());
        assert(percent_encoded(a) =~= percent_encoded(b) + seq![
            '%',
            hex_char(bytes[0] / 16),
            hex_char(bytes[0] % 16),
        ]);
    } else {
        lemma_percent_snoc(bytes.skip(1), j - 1);
        assert(a[0] == bytes[0]);
        assert(a.skip(1) =~= bytes.skip(1).take(j));
        assert(b.skip(1) =~= bytes.skip(1).take(j - 1));
        assert(bytes.skip(1)[j - 1] == bytes[j]);
        assert(percent_encoded(a) =~= percent_encoded(b) + seq![
            '%',
            hex_char(bytes[j] / 16),
            hex_char(bytes[j] % 16),
        ]);
    }
}

/// Whether a character survives form-urlencoding unchanged.
fn is_kept(c: char) -> (r: bool)
    ensures
        r == is_url_kept_char(c),
{
    ('0' <= c && c <= '9') || ('a' <= c && c <= 'z') || ('A' <= c && c <= 'Z') || c == '*' || c
        == '-' || c == '.' || c == '_'
}

} // verus!
