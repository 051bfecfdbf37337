use vstd::prelude::*;

verus! {

/// The ASCII lowering of one character: the letters `A` to `Z` map to their
/// lowercase forms, every other character (non-ASCII included) is unchanged.
pub open spec fn lower_char(c: char) -> char {
    if 65 <= c as u32 && c as u32 <= 90 {
        ((c as u32 + 32) as u8) as char
    } else {
        c
    }
}

/// ASCII case-folding of a character sequence.
pub open spec fn lower(s: Seq<char>) -> Seq<char> {
    s.map_values(|c: char| lower_char(c))
}

/// Relies on str::to_ascii_lowercase: ASCII upper-case letters are replaced
/// by their lowercase equivalents; all other characters are unchanged.
#[verifier::external_body]
pub(crate) fn ascii_lowercase(s: &str) -> (r: String)
    ensures
        r@ == lower(s@),
{
    s.to_ascii_lowercase()
}

/// Relies on String::push: appends exactly the given character.
#[verifier::external_body]
pub(crate) fn push_char(s: &mut String, c: char)
    ensures
        final(s)@ == old(s)@.push(c),
{
    s.push(c)
}

/// Text wrapped in the two-character spoiler markers when the flag is set;
/// unchanged otherwise.
pub open spec fn spoil(s: Seq<char>, spoiler: bool) -> Seq<char> {
    if spoiler {
        "||"@ + s + "||"@
    } else {
        s
    }
}

/// Wraps the given text in two-character spoiler markers when `spoiler` is
/// set; otherwise returns the text unchanged.
pub fn maybe_spoiler(s: &str, spoiler: bool) -> (r: String)
    ensures
        r@ == spoil(s@, spoiler),
{
    if spoiler {
        let mut out = String::new();
        out.append("||");
        out.append(s);
        out.append("||");
        out
    } else {
        s.to_owned()
    }
}

/// One of the sixteen hexadecimal digit characters, either case.
pub open spec fn is_hex_digit(c: char) -> bool {
    let v = c as u32;
    (48 <= v && v <= 57) || (97 <= v && v <= 102) || (65 <= v && v <= 70)
}

/// The value of a hexadecimal digit character.
pub open spec fn hex_digit_val(c: char) -> nat {
    let v = c as u32;
    if 48 <= v && v <= 57 {
        (v - 48) as nat
    } else if 97 <= v && v <= 102 {
        (v - 87) as nat
    } else if 65 <= v && v <= 70 {
        (v - 55) as nat
    } else {
        0
    }
}

/// Every character of the sequence is a hexadecimal digit.
pub open spec fn all_hex(s: Seq<char>) -> bool {
    forall|i: int| 0 <= i < s.len() ==> is_hex_digit(#[trigger] s[i])
}

/// The numeric value of a big-endian sequence of hexadecimal digits.
pub open spec fn hex_val(s: Seq<char>) -> nat
    decreases s.len(),
{
    if s.len() == 0 {
        0
    } else {
        hex_val(s.drop_last()) * 16 + hex_digit_val(s.last())
    }
}

/// Sixteen to the given power.
pub open spec fn pow16(n: nat) -> nat
    decreases n,
{
    if n == 0 {
        1
    } else {
        16 * pow16((n - 1) as nat)
    }
}

/// A digit string's value is below sixteen to its length.
proof fn lemma_hex_val_bound(s: Seq<char>)
    ensures
        hex_val(s) < pow16(s.len()),
    decreases s.len(),
{
    if s.len() > 0 {
        lemma_hex_val_bound(s.drop_last());
        assert(hex_digit_val(s.last()) <= 15);
    }
}

/// The value of one hexadecimal digit, or 16 when the character is not one.
fn hex_digit(c: char) -> (r: u32)
    ensures
        is_hex_digit(c) ==> r == hex_digit_val(c),
        !is_hex_digit(c) ==> r == 16,
{
    let v = c as u32;
    if 48 <= v && v <= 57 {
        v - 48
    } else if 97 <= v && v <= 102 {
        v - 87
    } else if 65 <= v && v <= 70 {
        v - 55
    } else {
        16
    }
}

/// Parses a string of one to eight hexadecimal digits as a big-endian
/// base-16 number; any other string is rejected.
pub fn parse_hex(s: &str) -> (r: Option<u32>)
    ensures
        r is Some <==> (1 <= s@.len() <= 8 && all_hex(s@)),
        r matches Some(v) ==> v as nat == hex_val(s@),
{
    let n = s.unicode_len();
    if n < 1 || n > 8 {
        return None;
    }
    let mut acc: u32 = 0;
    let mut i: usize = 0;
    while i < n
        invariant
            n == s@.len(),
            1 <= n <= 8,
            i <= n,
            all_hex(s@.subrange(0, i as int)),
            acc as nat == hex_val(s@.subrange(0, i as int)),
        decreases n - i,
    {
        let c = s.get_char(i);
        let d = hex_digit(c);
        if d == 16 {
            proof {
                assert(!is_hex_digit(s@[i as int]));
            }
            return None;
        }
        proof {
            lemma_hex_val_bound(s@.subrange(0, i as int));
            assert(acc < 268435456) by {
                assert(pow16(0) == 1);
                assert(pow16(1) == 16);
                assert(pow16(2) == 256);
                assert(pow16(3) == 4096);
                assert(pow16(4) == 65536);
                assert(pow16(5) == 1048576);
                assert(pow16(6) == 16777216);
                assert(pow16(7) == 268435456);
                assert(s@.subrange(0, i as int).len() == i);
            }
        }
        acc = acc * 16 + d;
        i = i + 1;
        proof {
            assert(s@.subrange(0, i as int).drop_last() =~= s@.subrange(0, i as int - 1));
            assert(s@.subrange(0, i as int).last() == s@[i as int - 1]);
        }
    }
    proof {
        assert(s@.subrange(0, n as int) =~= s@);
    }
    Some(acc)
}

/// The decimal digit character for a value below ten.
pub open spec fn dec_digit(d: nat) -> char {
    ((48 + d) as u8) as char
}

/// The decimal representation of a number, most significant digit first,
/// without leading zeros (zero itself is `"0"`).
pub open spec fn dec_rep(n: nat) -> Seq<char>
    decreases n,
{
    if n < 10 {
        seq![dec_digit(n)]
    } else {
        dec_rep(n / 10).push(dec_digit(n % 10))
    }
}

/// Renders a number in decimal.
pub fn u64_to_string(n: u64) -> (r: String)
    ensures
        r@ == dec_rep(n as nat),
    decreases n,
{
    if n < 10 {
        let mut s = String::new();
        let c: char = ((48 + n) as u8) as char;
        push_char(&mut s, c);
        proof {
            assert(s@ =~= seq![dec_digit(n as nat)]);
        }
        s
    } else {
        let mut s = u64_to_string(n / 10);
        let c: char = ((48 + (n % 10)) as u8) as char;
        push_char(&mut s, c);
        s
    }
}

} // verus!
