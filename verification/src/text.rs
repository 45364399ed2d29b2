//! Character-level helpers shared by the register file and the command
//! front end: ASCII case folding, hexadecimal parsing of addresses and
//! register values, decimal and fixed-width hexadecimal formatting, and
//! whitespace tokenization of a command line.

use vstd::prelude::*;

verus! {

// ---------------------------------------------------------------------------
// ASCII case folding
// ---------------------------------------------------------------------------

/// The ASCII lowercase image of a character; characters outside `A`..`Z`
/// are unchanged.
pub open spec fn lower_char(c: char) -> char {
    if 65 <= c as u32 && c as u32 <= 90 {
        (((c as u32) + 32) as u8) as char
    } else {
        c
    }
}

/// The ASCII lowercase image of a character sequence.
pub open spec fn to_lower_seq(s: Seq<char>) -> Seq<char> {
    s.map_values(|c: char| lower_char(c))
}

fn lower_char_exec(c: char) -> (r: char)
    ensures
        r == lower_char(c),
{
    let u: u32 = c as u32;
    if 65 <= u && u <= 90 {
        ((u + 32) as u8) as char
    } else {
        c
    }
}

/// True exactly when the lowercase image of `s` is `t` itself; `t` is
/// expected to be an already-lowercase pattern such as a register name.
pub fn eq_ignore_ascii_case(s: &str, t: &str) -> (r: bool)
    ensures
        r == (to_lower_seq(s@) == t@),
{
    let n = s.unicode_len();
    let m = t.unicode_len();
    if n != m {
        proof {
            assert(to_lower_seq(s@).len() == s@.len());
        }
        return false;
    }
    let mut i: usize = 0;
    while i < n
        invariant
            i <= n,
            n == s@.len(),
            n == t@.len(),
            forall|j: int| 0 <= j < i ==> to_lower_seq(s@)[j] == t@[j],
        decreases n - i,
    {
        let c = lower_char_exec(s.get_char(i));
        let d = t.get_char(i);
        if c != d {
            proof {
                assert(to_lower_seq(s@)[i as int] != t@[i as int]);
            }
            return false;
        }
        i += 1;
    }
    proof {
        assert(to_lower_seq(s@) =~= t@);
    }
    true
}

// ---------------------------------------------------------------------------
// Hexadecimal parsing
// ---------------------------------------------------------------------------

/// Whether `c` is a hexadecimal digit, either case.
pub open spec fn is_hex_digit(c: char) -> bool {
    (48 <= c as u32 && c as u32 <= 57) || (97 <= c as u32 && c as u32 <= 102) || (65 <= c as u32
        && c as u32 <= 70)
}

/// The numeric value of a hexadecimal digit.
pub open spec fn hex_digit_val(c: char) -> nat {
    if 48 <= c as u32 && c as u32 <= 57 {
        (c as u32 - 48) as nat
    } else if 97 <= c as u32 && c as u32 <= 102 {
        (c as u32 - 87) as nat
    } else if 65 <= c as u32 && c as u32 <= 70 {
        (c as u32 - 55) as nat
    } else {
        0
    }
}

/// The unbounded value of a big-endian hexadecimal digit string.
pub open spec fn hex_value(s: Seq<char>) -> nat
    decreases s.len(),
{
    if s.len() == 0 {
        0
    } else {
        hex_value(s.drop_last()) * 16 + hex_digit_val(s.last())
    }
}

/// Whether every character of `s` is a hexadecimal digit.
pub open spec fn all_hex(s: Seq<char>) -> bool {
    forall|i: int| 0 <= i < s.len() ==> is_hex_digit(#[trigger] s[i])
}

/// `s` without one optional leading `0x`.
pub open spec fn strip_hex_prefix(s: Seq<char>) -> Seq<char> {
    if s.len() >= 2 && s[0] == '0' && s[1] == 'x' {
        s.subrange(2, s.len() as int)
    } else {
        s
    }
}

/// What parsing a 64-bit hexadecimal literal with an optional `0x` prefix
/// yields: the value if the digit string is non-empty, all hexadecimal and
/// in range, and nothing otherwise.
pub open spec fn spec_parse_hex_u64(s: Seq<char>) -> Option<u64> {
    let b = strip_hex_prefix(s);
    if b.len() > 0 && all_hex(b) && hex_value(b) < 0x10000000000000000 {
        Some(hex_value(b) as u64)
    } else {
        None
    }
}

/// Extending a digit string on the right never decreases its value.
proof fn lemma_hex_value_prefix_le(s: Seq<char>, j: int)
    requires
        0 <= j <= s.len(),
    ensures
        hex_value(s.subrange(0, j)) <= hex_value(s),
    decreases s.len() - j,
{
    if j == s.len() {
        assert(s.subrange(0, j) =~= s);
    } else {
        let t = s.subrange(0, j + 1);
        assert(t.drop_last() =~= s.subrange(0, j));
        assert(hex_value(s.subrange(0, j)) * 16 + hex_digit_val(t.last()) == hex_value(t));
        assert(hex_value(s.subrange(0, j)) <= hex_value(t));
        lemma_hex_value_prefix_le(s, j + 1);
    }
}

fn hex_val_exec(c: char) -> (r: Option<u64>)
    ensures
        match r {
            Some(v) => is_hex_digit(c) && v as nat == hex_digit_val(c) && v < 16,
            None => !is_hex_digit(c),
        },
{
    let u: u32 = c as u32;
    if 48 <= u && u <= 57 {
        Some((u - 48) as u64)
    } else if 97 <= u && u <= 102 {
        Some((u - 87) as u64)
    } else if 65 <= u && u <= 70 {
        Some((u - 55) as u64)
    } else {
        None
    }
}

/// Parses the digits of `s` from position `start` on as one big-endian
/// hexadecimal number.
fn parse_hex_digits(s: &str, start: usize) -> (r: Option<u64>)
    requires
        start <= s@.len(),
    ensures
        r == ({
            let b = s@.subrange(start as int, s@.len() as int);
            if b.len() > 0 && all_hex(b) && hex_value(b) < 0x10000000000000000 {
                Some(hex_value(b) as u64)
            } else {
                None::<u64>
            }
        }),
{
    let ghost b = s@.subrange(start as int, s@.len() as int);
    let n = s.unicode_len();
    if start == n {
        return None;
    }
    let mut acc: u64 = 0;
    let mut i: usize = start;
    while i < n
        invariant
            start <= i <= n,
            n == s@.len(),
            b == s@.subrange(start as int, n as int),
            all_hex(b.subrange(0, i - start)),
            acc as nat == hex_value(b.subrange(0, i - start)),
        decreases n - i,
    {
        let ghost pre = b.subrange(0, i - start);
        let ghost ext = b.subrange(0, i + 1 - start);
        proof {
            assert(b[i - start] == s@[i as int]);
            assert(ext.drop_last() =~= pre);
            assert(hex_value(ext) == hex_value(pre) * 16 + hex_digit_val(b[i - start]));
        }
        let d = match hex_val_exec(s.get_char(i)) {
            Some(d) => d,
            None => {
                proof {
                    assert(!is_hex_digit(b[i - start]));
                }
                return None;
            },
        };
        if acc >= 0x1000000000000000 {
            proof {
                assert(hex_value(ext) >= 0x10000000000000000);
                lemma_hex_value_prefix_le(b, i + 1 - start);
            }
            return None;
        }
        acc = acc * 16 + d;
        i += 1;
        proof {
            assert(b.subrange(0, i - start) == ext);
            assert forall|j: int| 0 <= j < i - start implies is_hex_digit(
                #[trigger] b.subrange(0, i - start)[j],
            ) by {
                if j < i - 1 - start {
                    assert(is_hex_digit(pre[j]));
                }
            }
        }
    }
    proof {
        assert(b.subrange(0, i - start) =~= b);
    }
    Some(acc)
}

/// Parses a breakpoint or memory address: a hexadecimal literal with an
/// optional `0x` prefix, rejected when malformed or over 64 bits.
pub fn str_to_addr(s: &str) -> (r: Option<u64>)
    ensures
        r == spec_parse_hex_u64(s@),
{
    let n = s.unicode_len();
    if n >= 2 && s.get_char(0) == '0' && s.get_char(1) == 'x' {
        proof {
            assert(strip_hex_prefix(s@) =~= s@.subrange(2, s@.len() as int));
        }
        parse_hex_digits(s, 2)
    } else {
        proof {
            assert(strip_hex_prefix(s@) =~= s@.subrange(0, s@.len() as int));
        }
        parse_hex_digits(s, 0)
    }
}

/// Parses a register value; the accepted literals are exactly those of
/// [`str_to_addr`].
pub fn str_to_reg_value(s: &str) -> (r: Option<u64>)
    ensures
        r == spec_parse_hex_u64(s@),
{
    str_to_addr(s)
}

// ---------------------------------------------------------------------------
// Formatting
// ---------------------------------------------------------------------------

/// The character that prints the digit value `d` (hexadecimal digits are
/// lowercase).
pub open spec fn digit_char(d: int) -> char {
    if d == 0 {
        '0'
    } else if d == 1 {
        '1'
    } else if d == 2 {
        '2'
    } else if d == 3 {
        '3'
    } else if d == 4 {
        '4'
    } else if d == 5 {
        '5'
    } else if d == 6 {
        '6'
    } else if d == 7 {
        '7'
    } else if d == 8 {
        '8'
    } else if d == 9 {
        '9'
    } else if d == 10 {
        'a'
    } else if d == 11 {
        'b'
    } else if d == 12 {
        'c'
    } else if d == 13 {
        'd'
    } else if d == 14 {
        'e'
    } else {
        'f'
    }
}

/// The decimal rendering of `v`, most significant digit first, with no
/// leading zeroes except for the value zero itself.
pub open spec fn spec_dec(v: nat) -> Seq<char>
    decreases v,
{
    if v < 10 {
        seq![digit_char(v as int)]
    } else {
        spec_dec(v / 10).push(digit_char((v % 10) as int))
    }
}

/// The last `k` hexadecimal digits of `v`, zero padded, most significant
/// first.
pub open spec fn spec_hex_digits(v: nat, k: nat) -> Seq<char>
    decreases k,
{
    if k == 0 {
        Seq::empty()
    } else {
        spec_hex_digits(v / 16, (k - 1) as nat).push(digit_char((v % 16) as int))
    }
}

/// The sixteen-digit zero-padded hexadecimal rendering of a 64-bit word, as
/// the dump command prints it.
pub open spec fn spec_hex16(v: u64) -> Seq<char> {
    spec_hex_digits(v as nat, 16)
}

fn digit_str(d: u64) -> (r: &'static str)
    requires
        d < 16,
    ensures
        r@ =~= seq![digit_char(d as int)],
{
    let r = if d == 0 {
        "0"
    } else if d == 1 {
        "1"
    } else if d == 2 {
        "2"
    } else if d == 3 {
        "3"
    } else if d == 4 {
        "4"
    } else if d == 5 {
        "5"
    } else if d == 6 {
        "6"
    } else if d == 7 {
        "7"
    } else if d == 8 {
        "8"
    } else if d == 9 {
        "9"
    } else if d == 10 {
        "a"
    } else if d == 11 {
        "b"
    } else if d == 12 {
        "c"
    } else if d == 13 {
        "d"
    } else if d == 14 {
        "e"
    } else {
        "f"
    };
    proof {
        reveal_strlit("0");
        reveal_strlit("1");
        reveal_strlit("2");
        reveal_strlit("3");
        reveal_strlit("4");
        reveal_strlit("5");
        reveal_strlit("6");
        reveal_strlit("7");
        reveal_strlit("8");
        reveal_strlit("9");
        reveal_strlit("a");
        reveal_strlit("b");
        reveal_strlit("c");
        reveal_strlit("d");
        reveal_strlit("e");
        reveal_strlit("f");
    }
    r
}

/// Renders `v` in decimal, as the register and memory read commands print
/// values.
pub fn u64_to_dec(v: u64) -> (s: String)
    ensures
        s@ == spec_dec(v as nat),
    decreases v,
{
    if v < 10 {
        digit_str(v).to_owned()
    } else {
        let mut s = u64_to_dec(v / 10);
        s.append(digit_str(v % 10));
        proof {
            assert(s@ =~= spec_dec(v as nat));
        }
        s
    }
}

fn u64_to_hex_digits(v: u64, k: usize) -> (s: String)
    ensures
        s@ == spec_hex_digits(v as nat, k as nat),
    decreases k,
{
    if k == 0 {
        String::new()
    } else {
        let mut s = u64_to_hex_digits(v / 16, k - 1);
        s.append(digit_str(v % 16));
        proof {
            assert(s@ =~= spec_hex_digits(v as nat, k as nat));
        }
        s
    }
}

/// Renders a 64-bit word as sixteen zero-padded hexadecimal digits.
pub fn u64_to_hex16(v: u64) -> (s: String)
    ensures
        s@ == spec_hex16(v),
{
    u64_to_hex_digits(v, 16)
}

// ---------------------------------------------------------------------------
// Tokenization
// ---------------------------------------------------------------------------

/// The whitespace that separates the fields of a command line.
pub open spec fn is_space(c: char) -> bool {
    c == ' ' || c == '\t' || c == '\r' || c == '\n'
}

/// The length of the maximal non-space prefix of `s`.
pub open spec fn head_len(s: Seq<char>) -> nat
    decreases s.len(),
{
    if s.len() == 0 || is_space(s[0]) {
        0
    } else {
        1 + head_len(s.drop_first())
    }
}

/// The fields of a command line: the maximal non-space runs, in order.
pub open spec fn spec_tokens(s: Seq<char>) -> Seq<Seq<char>>
    decreases s.len(),
    via spec_tokens_decreases
{
    if s.len() == 0 {
        Seq::empty()
    } else if is_space(s[0]) {
        spec_tokens(s.drop_first())
    } else {
        seq![s.subrange(0, head_len(s) as int)] + spec_tokens(
            s.subrange(head_len(s) as int, s.len() as int),
        )
    }
}

#[via_fn]
proof fn spec_tokens_decreases(s: Seq<char>) {
    if s.len() > 0 && !is_space(s[0]) {
        assert(head_len(s) == 1 + head_len(s.drop_first()));
        lemma_head_len_le(s);
    }
}

/// The non-space prefix never runs past the end of the sequence.
proof fn lemma_head_len_le(s: Seq<char>)
    ensures
        head_len(s) <= s.len(),
    decreases s.len(),
{
    if s.len() > 0 && !is_space(s[0]) {
        lemma_head_len_le(s.drop_first());
    }
}

/// A run of `m` non-space characters closed off by the end or a space is
/// exactly the maximal non-space prefix.
proof fn lemma_head_len_is(s: Seq<char>, m: int)
    requires
        0 <= m <= s.len(),
        forall|k: int| 0 <= k < m ==> !is_space(#[trigger] s[k]),
        m == s.len() || is_space(s[m]),
    ensures
        head_len(s) == m,
    decreases m,
{
    if m == 0 {
    } else {
        let t = s.drop_first();
        assert(forall|k: int| 0 <= k < m - 1 ==> #[trigger] t[k] == s[k + 1]);
        lemma_head_len_is(t, m - 1);
    }
}

fn is_space_exec(c: char) -> (r: bool)
    ensures
        r == is_space(c),
{
    c == ' ' || c == '\t' || c == '\r' || c == '\n'
}

/// Splits a command line into its whitespace-separated fields.
pub fn tokenize(s: &str) -> (v: Vec<String>)
    ensures
        v@.map_values(|t: String| t@) == spec_tokens(s@),
{
    let n = s.unicode_len();
    let mut v: Vec<String> = Vec::new();
    let mut i: usize = 0;
    proof {
        assert(s@.subrange(0, n as int) =~= s@);
        assert(v@.map_values(|t: String| t@) + spec_tokens(s@) =~= spec_tokens(s@));
    }
    while i < n
        invariant
            i <= n,
            n == s@.len(),
            v@.map_values(|t: String| t@) + spec_tokens(s@.subrange(i as int, n as int))
                =~= spec_tokens(s@),
        decreases n - i,
    {
        let ghost rest = s@.subrange(i as int, n as int);
        if is_space_exec(s.get_char(i)) {
            proof {
                assert(rest[0] == s@[i as int]);
                assert(rest.drop_first() =~= s@.subrange(i + 1, n as int));
            }
            i += 1;
        } else {
            let mut j: usize = i + 1;
            while j < n && !is_space_exec(s.get_char(j))
                invariant
                    i < j <= n,
                    n == s@.len(),
                    forall|k: int| i <= k < j ==> !is_space(#[trigger] s@[k]),
                decreases n - j,
            {
                j += 1;
            }
            proof {
                assert(rest[0] == s@[i as int]);
                assert(forall|k: int|
                    0 <= k < j - i ==> #[trigger] rest[k] == s@[k + i] && !is_space(rest[k]));
                if j < n {
                    assert(is_space(rest[j - i]));
                }
                lemma_head_len_is(rest, j - i);
                assert(rest.subrange(0, j - i) =~= s@.subrange(i as int, j as int));
                assert(rest.subrange(j - i, rest.len() as int) =~= s@.subrange(
                    j as int,
                    n as int,
                ));
            }
            let tok = s.substring_char(i, j).to_owned();
            let ghost old_v = v@;
            v.push(tok);
            proof {
                assert(v@.map_values(|t: String| t@) =~= old_v.map_values(|t: String| t@)
                    + seq![s@.subrange(i as int, j as int)]);
            }
            i = j;
        }
    }
    proof {
        assert(s@.subrange(i as int, n as int).len() == 0);
        assert(v@.map_values(|t: String| t@) + spec_tokens(s@.subrange(i as int, n as int))
            =~= v@.map_values(|t: String| t@));
    }
    v
}

/// Case folding twice is the same as folding once.
pub proof fn lemma_to_lower_idempotent(s: Seq<char>)
    ensures
        to_lower_seq(to_lower_seq(s)) == to_lower_seq(s),
{
    assert forall|i: int| 0 <= i < s.len() implies lower_char(lower_char(s[i])) == lower_char(
        s[i],
    ) by {
        let c = s[i];
        if 65 <= c as u32 && c as u32 <= 90 {
            assert(c as u32 + 32 < 256);
            assert(lower_char(c) as u32 == c as u32 + 32);
        }
    }
    assert(to_lower_seq(to_lower_seq(s)) =~= to_lower_seq(s));
}

} // verus!
