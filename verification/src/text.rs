use vstd::prelude::*;
use vstd::string::StrSliceExecFns;

verus! {

/// Character-for-character equality of two string slices.
pub fn str_eq(a: &str, b: &str) -> (r: bool)
    ensures
        r == (a@ == b@),
{
    let x: String = a.to_owned();
    let y: String = b.to_owned();
    x == y
}

/// The characters carrying the Unicode `White_Space` property, the set
/// that `str::trim` strips.
pub open spec fn is_wspace_char(c: char) -> bool {
    ||| c == ' '
    ||| c == '\u{09}'
    ||| c == '\u{0a}'
    ||| c == '\u{0b}'
    ||| c == '\u{0c}'
    ||| c == '\u{0d}'
    ||| c == '\u{85}'
    ||| c == '\u{a0}'
    ||| c == '\u{1680}'
    ||| ('\u{2000}' <= c && c <= '\u{200a}')
    ||| c == '\u{2028}'
    ||| c == '\u{2029}'
    ||| c == '\u{202f}'
    ||| c == '\u{205f}'
    ||| c == '\u{3000}'
}

/// Decide whether `c` is whitespace.
pub fn is_wspace(c: char) -> (r: bool)
    ensures
        r == is_wspace_char(c),
{
    match c {
        ' ' | '\u{09}' | '\u{0a}' | '\u{0b}' | '\u{0c}' | '\u{0d}' | '\u{85}' | '\u{a0}'
            | '\u{1680}' | '\u{2028}' | '\u{2029}' | '\u{202f}' | '\u{205f}' | '\u{3000}' => true,
        _ => '\u{2000}' <= c && c <= '\u{200a}',
    }
}

/// True when the string holds no character, or only whitespace: the
/// strings that count as empty after trimming.
pub open spec fn spec_is_blank(s: Seq<char>) -> bool {
    forall|i: int| 0 <= i < s.len() ==> is_wspace_char(#[trigger] s[i])
}

/// Decide whether `s` is empty or all whitespace.
pub fn is_blank(s: &str) -> (r: bool)
    ensures
        r == spec_is_blank(s@),
{
    let n: usize = s.unicode_len();
    let mut i: usize = 0;
    while i < n
        invariant
            0 <= i <= n,
            n == s@.len(),
            forall|j: int| 0 <= j < i ==> is_wspace_char(#[trigger] s@[j]),
        decreases n - i,
    {
        if !is_wspace(s.get_char(i)) {
            return false;
        }
        i += 1;
    }
    true
}

/// `s` without those leading characters that satisfy `is_wspace_char`.
pub open spec fn drop_leading_ws(s: Seq<char>) -> Seq<char>
    decreases s.len(),
{
    if s.len() > 0 && is_wspace_char(s[0]) {
        drop_leading_ws(s.drop_first())
    } else {
        s
    }
}

/// `s` without those trailing characters that satisfy `is_wspace_char`.
pub open spec fn drop_trailing_ws(s: Seq<char>) -> Seq<char>
    decreases s.len(),
{
    if s.len() > 0 && is_wspace_char(s.last()) {
        drop_trailing_ws(s.drop_last())
    } else {
        s
    }
}

/// What `str::trim` returns: the string without leading and trailing
/// whitespace.
pub open spec fn spec_trim(s: Seq<char>) -> Seq<char> {
    drop_trailing_ws(drop_leading_ws(s))
}

proof fn lemma_drop_leading_ws_step(s: Seq<char>, i: int)
    requires
        0 <= i < s.len(),
        is_wspace_char(s[i]),
    ensures
        drop_leading_ws(s.subrange(i, s.len() as int)) == drop_leading_ws(
            s.subrange(i + 1, s.len() as int),
        ),
{
    let tail = s.subrange(i, s.len() as int);
    assert(tail.drop_first() =~= s.subrange(i + 1, s.len() as int));
}

proof fn lemma_drop_trailing_ws_step(s: Seq<char>, j: int)
    requires
        0 < j <= s.len(),
        is_wspace_char(s[j - 1]),
    ensures
        drop_trailing_ws(s.subrange(0, j)) == drop_trailing_ws(s.subrange(0, j - 1)),
{
    let head = s.subrange(0, j);
    assert(head.drop_last() =~= s.subrange(0, j - 1));
}

/// `str::trim`: the slice without leading and trailing whitespace.
pub fn trim_str(s: &str) -> (r: &str)
    ensures
        r@ == spec_trim(s@),
{
    let n: usize = s.unicode_len();
    proof {
        assert(s@.subrange(0, n as int) =~= s@);
    }
    let mut a: usize = 0;
    while a < n && is_wspace(s.get_char(a))
        invariant
            0 <= a <= n,
            n == s@.len(),
            drop_leading_ws(s@) == drop_leading_ws(s@.subrange(a as int, n as int)),
        decreases n - a,
    {
        proof {
            lemma_drop_leading_ws_step(s@, a as int);
        }
        a += 1;
    }
    proof {
        assert(s@.subrange(0, n as int) =~= s@);
        assert(drop_leading_ws(s@) == s@.subrange(a as int, n as int));
    }
    let ghost led = s@.subrange(a as int, n as int);
    let mut b: usize = n;
    while b > a && is_wspace(s.get_char(b - 1))
        invariant
            a <= b <= n,
            n == s@.len(),
            led == s@.subrange(a as int, n as int),
            drop_trailing_ws(led) == drop_trailing_ws(s@.subrange(a as int, b as int)),
        decreases b,
    {
        proof {
            assert(led.subrange(0, (b - a) as int) =~= s@.subrange(a as int, b as int));
            assert(led.subrange(0, (b - a - 1) as int) =~= s@.subrange(a as int, b as int - 1));
            lemma_drop_trailing_ws_step(led, (b - a) as int);
        }
        b -= 1;
    }
    proof {
        assert(led.subrange(0, (b - a) as int) =~= s@.subrange(a as int, b as int));
        if b == a {
            assert(s@.subrange(a as int, b as int) =~= Seq::<char>::empty());
        }
        assert(drop_trailing_ws(led) == s@.subrange(a as int, b as int));
    }
    s.substring_char(a, b)
}

/// `s` without every leading occurrence of the character `c`.
pub open spec fn drop_leading_char(s: Seq<char>, c: char) -> Seq<char>
    decreases s.len(),
{
    if s.len() > 0 && s[0] == c {
        drop_leading_char(s.drop_first(), c)
    } else {
        s
    }
}

proof fn lemma_drop_leading_char_step(s: Seq<char>, c: char, i: int)
    requires
        0 <= i < s.len(),
        s[i] == c,
    ensures
        drop_leading_char(s.subrange(i, s.len() as int), c) == drop_leading_char(
            s.subrange(i + 1, s.len() as int),
            c,
        ),
{
    let tail = s.subrange(i, s.len() as int);
    assert(tail.drop_first() =~= s.subrange(i + 1, s.len() as int));
}

/// The slice without every leading occurrence of `c`, as
/// `str::trim_start_matches(c)` returns it.
pub fn strip_leading_char(s: &str, c: char) -> (r: &str)
    ensures
        r@ == drop_leading_char(s@, c),
{
    let n: usize = s.unicode_len();
    proof {
        assert(s@.subrange(0, n as int) =~= s@);
    }
    let mut a: usize = 0;
    while a < n && s.get_char(a) == c
        invariant
            0 <= a <= n,
            n == s@.len(),
            drop_leading_char(s@, c) == drop_leading_char(s@.subrange(a as int, n as int), c),
        decreases n - a,
    {
        proof {
            lemma_drop_leading_char_step(s@, c, a as int);
        }
        a += 1;
    }
    proof {
        assert(s@.subrange(0, n as int) =~= s@);
        assert(drop_leading_char(s@, c) == s@.subrange(a as int, n as int));
    }
    s.substring_char(a, n)
}

/// `s` without every trailing occurrence of the character `c`.
pub open spec fn drop_trailing_char(s: Seq<char>, c: char) -> Seq<char>
    decreases s.len(),
{
    if s.len() > 0 && s.last() == c {
        drop_trailing_char(s.drop_last(), c)
    } else {
        s
    }
}

proof fn lemma_drop_trailing_char_step(s: Seq<char>, c: char, j: int)
    requires
        0 < j <= s.len(),
        s[j - 1] == c,
    ensures
        drop_trailing_char(s.subrange(0, j), c) == drop_trailing_char(s.subrange(0, j - 1), c),
{
    let head = s.subrange(0, j);
    assert(head.drop_last() =~= s.subrange(0, j - 1));
}

/// The slice without every trailing occurrence of `c`, as
/// `str::trim_end_matches(c)` returns it.
pub fn strip_trailing_char(s: &str, c: char) -> (r: &str)
    ensures
        r@ == drop_trailing_char(s@, c),
{
    let n: usize = s.unicode_len();
    proof {
        assert(s@.subrange(0, n as int) =~= s@);
    }
    let mut b: usize = n;
    while b > 0 && s.get_char(b - 1) == c
        invariant
            0 <= b <= n,
            n == s@.len(),
            drop_trailing_char(s@, c) == drop_trailing_char(s@.subrange(0, b as int), c),
        decreases b,
    {
        proof {
            lemma_drop_trailing_char_step(s@, c, b as int);
        }
        b -= 1;
    }
    proof {
        assert(s@.subrange(0, n as int) =~= s@);
        assert(drop_trailing_char(s@, c) == s@.subrange(0, b as int));
    }
    s.substring_char(0, b)
}

/// True when `c` is a decimal digit.
pub open spec fn is_digit_char(c: char) -> bool {
    '0' <= c && c <= '9'
}

/// The numeric value of the digit `c`.
pub open spec fn digit_val(c: char) -> nat {
    (c as nat - '0' as nat) as nat
}

/// True when `s` is one or more decimal digits.
pub open spec fn all_digits(s: Seq<char>) -> bool {
    s.len() > 0 && forall|i: int| 0 <= i < s.len() ==> is_digit_char(#[trigger] s[i])
}

/// The number the digit string `s` denotes, most significant digit first.
pub open spec fn digits_val(s: Seq<char>) -> nat
    decreases s.len(),
{
    if s.len() == 0 {
        0
    } else {
        digits_val(s.drop_last()) * 10 + digit_val(s.last())
    }
}

proof fn lemma_digits_val_snoc(s: Seq<char>, i: int)
    requires
        0 <= i < s.len(),
    ensures
        digits_val(s.subrange(0, i + 1)) == digits_val(s.subrange(0, i)) * 10 + digit_val(s[i]),
{
    let head = s.subrange(0, i + 1);
    assert(head.drop_last() =~= s.subrange(0, i));
    assert(head.last() == s[i]);
}

proof fn lemma_digits_val_prefix_le(s: Seq<char>, i: int)
    requires
        0 <= i <= s.len(),
    ensures
        digits_val(s.subrange(0, i)) <= digits_val(s),
    decreases s.len() - i,
{
    if i == s.len() {
        assert(s.subrange(0, i) =~= s);
    } else {
        lemma_digits_val_snoc(s, i);
        assert(digits_val(s.subrange(0, i)) <= digits_val(s.subrange(0, i + 1)));
        lemma_digits_val_prefix_le(s, i + 1);
    }
}

/// True when `s` is a digit string denoting a value that fits in `u64`.
pub open spec fn u64_string_ok(s: Seq<char>) -> bool {
    all_digits(s) && digits_val(s) <= u64::MAX
}

/// Parse an unsigned decimal integer, as the measurement decoder needs
/// it: digits only, rejecting anything else and values beyond `u64`.
pub fn parse_u64_digits(s: &str) -> (r: Option<u64>)
    ensures
        match r {
            Some(v) => u64_string_ok(s@) && v as nat == digits_val(s@),
            None => !u64_string_ok(s@),
        },
{
    let n: usize = s.unicode_len();
    if n == 0 {
        return None;
    }
    let mut acc: u64 = 0;
    let mut i: usize = 0;
    while i < n
        invariant
            0 <= i <= n,
            n == s@.len(),
            forall|j: int| 0 <= j < i ==> is_digit_char(#[trigger] s@[j]),
            acc as nat == digits_val(s@.subrange(0, i as int)),
        decreases n - i,
    {
        let c = s.get_char(i);
        if !('0' <= c && c <= '9') {
            return None;
        }
        let d: u64 = (c as u32 - '0' as u32) as u64;
        proof {
            lemma_digits_val_snoc(s@, i as int);
        }
        if acc > (u64::MAX - d) / 10 {
            proof {
                assert(digits_val(s@.subrange(0, i as int + 1)) > u64::MAX) by (nonlinear_arith)
                    requires
                        digits_val(s@.subrange(0, i as int + 1)) == acc as nat * 10 + d,
                        acc > (u64::MAX - d) / 10,
                        d <= 9,
                ;
                lemma_digits_val_prefix_le(s@, i as int + 1);
            }
            return None;
        }
        assert(acc * 10 + d <= u64::MAX) by (nonlinear_arith)
            requires
                acc <= (u64::MAX - d) / 10,
                d <= 9,
        ;
        acc = acc * 10 + d;
        i += 1;
    }
    proof {
        assert(s@.subrange(0, n as int) =~= s@);
    }
    Some(acc)
}

/// True when `s` is a digit string with an optional leading `+` whose
/// value fits in `u64`: what `u64::from_str` accepts.
pub open spec fn u64_text_ok(s: Seq<char>) -> bool {
    if s.len() >= 1 && s[0] == '+' {
        u64_string_ok(s.drop_first())
    } else {
        u64_string_ok(s)
    }
}

/// The value of a digit string with an optional leading `+`.
pub open spec fn u64_text_val(s: Seq<char>) -> nat {
    if s.len() >= 1 && s[0] == '+' {
        digits_val(s.drop_first())
    } else {
        digits_val(s)
    }
}

/// Parse an unsigned decimal integer as `u64::from_str` reads it: an
/// optional `+` sign followed by digits.
pub fn parse_u64_text(s: &str) -> (r: Option<u64>)
    ensures
        match r {
            Some(v) => u64_text_ok(s@) && v as nat == u64_text_val(s@),
            None => !u64_text_ok(s@),
        },
{
    let n: usize = s.unicode_len();
    if n >= 1 && s.get_char(0) == '+' {
        let rest = s.substring_char(1, n);
        proof {
            assert(rest@ =~= s@.drop_first());
        }
        parse_u64_digits(rest)
    } else {
        parse_u64_digits(s)
    }
}

/// True when `s` is a digit string with an optional leading `-` whose
/// value fits in `i64`.
pub open spec fn i64_string_ok(s: Seq<char>) -> bool {
    if s.len() >= 1 && s[0] == '-' {
        all_digits(s.drop_first()) && digits_val(s.drop_first()) <= 0x8000_0000_0000_0000
    } else {
        all_digits(s) && digits_val(s) <= i64::MAX
    }
}

/// The signed value of a digit string with an optional leading `-`.
pub open spec fn i64_string_val(s: Seq<char>) -> int {
    if s.len() >= 1 && s[0] == '-' {
        -(digits_val(s.drop_first()) as int)
    } else {
        digits_val(s) as int
    }
}

/// Parse a signed decimal integer: an optional `-` sign followed by
/// digits, rejecting values outside `i64`.
pub fn parse_i64_text(s: &str) -> (r: Option<i64>)
    ensures
        match r {
            Some(v) => i64_string_ok(s@) && v as int == i64_string_val(s@),
            None => !i64_string_ok(s@),
        },
{
    let n: usize = s.unicode_len();
    if n >= 1 && s.get_char(0) == '-' {
        let rest = s.substring_char(1, n);
        proof {
            assert(rest@ =~= s@.drop_first());
        }
        match parse_u64_digits(rest) {
            Some(v) => {
                if v <= 0x8000_0000_0000_0000 {
                    if v == 0x8000_0000_0000_0000 {
                        Some(i64::MIN)
                    } else {
                        Some(-(v as i64))
                    }
                } else {
                    None
                }
            },
            None => None,
        }
    } else {
        match parse_u64_digits(s) {
            Some(v) => {
                if v <= i64::MAX as u64 {
                    Some(v as i64)
                } else {
                    None
                }
            },
            None => None,
        }
    }
}

/// One step of the decimal-literal automaton. States: 0 start, 1 after
/// sign, 2 integer digits (accepting), 3 dot with no digits yet, 4
/// fraction (accepting), 5 after exponent mark, 6 after exponent sign,
/// 7 exponent digits (accepting), 9 reject.
pub open spec fn dec_next(st: int, c: char) -> int {
    if st == 0 {
        if c == '+' || c == '-' {
            1
        } else if is_digit_char(c) {
            2
        } else if c == '.' {
            3
        } else {
            9
        }
    } else if st == 1 {
        if is_digit_char(c) {
            2
        } else if c == '.' {
            3
        } else {
            9
        }
    } else if st == 2 {
        if is_digit_char(c) {
            2
        } else if c == '.' {
            4
        } else if c == 'e' || c == 'E' {
            5
        } else {
            9
        }
    } else if st == 3 {
        if is_digit_char(c) {
            4
        } else {
            9
        }
    } else if st == 4 {
        if is_digit_char(c) {
            4
        } else if c == 'e' || c == 'E' {
            5
        } else {
            9
        }
    } else if st == 5 {
        if c == '+' || c == '-' {
            6
        } else if is_digit_char(c) {
            7
        } else {
            9
        }
    } else if st == 6 || st == 7 {
        if is_digit_char(c) {
            7
        } else {
            9
        }
    } else {
        9
    }
}

/// The automaton state after reading `s` from position `i` in state `st`.
pub open spec fn dec_scan(s: Seq<char>, i: int, st: int) -> int
    decreases s.len() - i,
{
    if i < 0 || i >= s.len() {
        st
    } else {
        dec_scan(s, i + 1, dec_next(st, s[i]))
    }
}

/// True when `s` is a plain decimal literal: an optional sign, digits
/// with an optional fractional part or a bare fractional part, and an
/// optional exponent. Every such string parses as a finite-syntax
/// floating-point number.
pub open spec fn is_decimal_literal(s: Seq<char>) -> bool {
    let st = dec_scan(s, 0, 0);
    st == 2 || st == 4 || st == 7
}

/// One automaton step, executably.
fn dec_next_exec(st: u32, c: char) -> (r: u32)
    requires
        st <= 9,
    ensures
        r as int == dec_next(st as int, c),
        r <= 9,
{
    if st == 0 {
        if c == '+' || c == '-' {
            1
        } else if '0' <= c && c <= '9' {
            2
        } else if c == '.' {
            3
        } else {
            9
        }
    } else if st == 1 {
        if '0' <= c && c <= '9' {
            2
        } else if c == '.' {
            3
        } else {
            9
        }
    } else if st == 2 {
        if '0' <= c && c <= '9' {
            2
        } else if c == '.' {
            4
        } else if c == 'e' || c == 'E' {
            5
        } else {
            9
        }
    } else if st == 3 {
        if '0' <= c && c <= '9' {
            4
        } else {
            9
        }
    } else if st == 4 {
        if '0' <= c && c <= '9' {
            4
        } else if c == 'e' || c == 'E' {
            5
        } else {
            9
        }
    } else if st == 5 {
        if c == '+' || c == '-' {
            6
        } else if '0' <= c && c <= '9' {
            7
        } else {
            9
        }
    } else if st == 6 || st == 7 {
        if '0' <= c && c <= '9' {
            7
        } else {
            9
        }
    } else {
        9
    }
}

/// Decide whether `s` is a plain decimal literal.
pub fn check_decimal(s: &str) -> (r: bool)
    ensures
        r == is_decimal_literal(s@),
{
    let n: usize = s.unicode_len();
    let mut st: u32 = 0;
    let mut i: usize = 0;
    while i < n
        invariant
            0 <= i <= n,
            n == s@.len(),
            st <= 9,
            dec_scan(s@, 0, 0) == dec_scan(s@, i as int, st as int),
        decreases n - i,
    {
        st = dec_next_exec(st, s.get_char(i));
        i += 1;
    }
    st == 2 || st == 4 || st == 7
}

} // verus!

