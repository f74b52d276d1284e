//! Verified text utilities: whitespace trimming, decimal parsing and
//! formatting, and line splitting, stated over character sequences.

use vstd::prelude::*;
use vstd::string::*;

verus! {

/// Whether a character has the Unicode `White_Space` property, the set that
/// trimming strips from both ends of a string.
pub open spec fn is_ws(c: char) -> bool {
    let u = c as u32;
    u == 0x20 || (0x09 <= u && u <= 0x0D) || u == 0x85 || u == 0xA0 || u == 0x1680 || (0x2000
        <= u && u <= 0x200A) || u == 0x2028 || u == 0x2029 || u == 0x202F || u == 0x205F || u
        == 0x3000
}

/// Executable test for the Unicode `White_Space` property.
pub fn is_ws_char(c: char) -> (b: bool)
    ensures
        b == is_ws(c),
{
    let u = c as u32;
    u == 0x20 || (0x09 <= u && u <= 0x0D) || u == 0x85 || u == 0xA0 || u == 0x1680 || (0x2000
        <= u && u <= 0x200A) || u == 0x2028 || u == 0x2029 || u == 0x202F || u == 0x205F || u
        == 0x3000
}

/// The sequence with its leading whitespace removed.
pub open spec fn trim_start_spec(s: Seq<char>) -> Seq<char>
    decreases s.len(),
{
    if s.len() > 0 && is_ws(s[0]) {
        trim_start_spec(s.drop_first())
    } else {
        s
    }
}

/// The sequence with its trailing whitespace removed.
pub open spec fn trim_end_spec(s: Seq<char>) -> Seq<char>
    decreases s.len(),
{
    if s.len() > 0 && is_ws(s.last()) {
        trim_end_spec(s.drop_last())
    } else {
        s
    }
}

/// The sequence with whitespace removed from both ends.
pub open spec fn trim_spec(s: Seq<char>) -> Seq<char> {
    trim_end_spec(trim_start_spec(s))
}

/// Removes leading and trailing whitespace, as the surrounding tool output
/// is trimmed before it is parsed or shown.
pub fn trim(s: &str) -> (trimmed: &str)
    ensures
        trimmed@ == trim_spec(s@),
{
    let n = s.unicode_len();
    let mut start: usize = 0;
    proof {
        assert(s@.skip(0) =~= s@);
    }
    while start < n && is_ws_char(s.get_char(start))
        invariant
            n == s@.len(),
            start <= n,
            trim_start_spec(s@) == trim_start_spec(s@.skip(start as int)),
        decreases n - start,
    {
        proof {
            assert(s@.skip(start as int).drop_first() =~= s@.skip(start as int + 1));
        }
        start = start + 1;
    }
    proof {
        assert(trim_start_spec(s@) == s@.skip(start as int));
    }
    let mut end: usize = n;
    while end > start && is_ws_char(s.get_char(end - 1))
        invariant
            n == s@.len(),
            start <= end <= n,
            trim_start_spec(s@) == s@.skip(start as int),
            trim_end_spec(s@.subrange(start as int, n as int)) == trim_end_spec(
                s@.subrange(start as int, end as int),
            ),
        decreases end,
    {
        proof {
            assert(s@.subrange(start as int, end as int).drop_last() =~= s@.subrange(
                start as int,
                end as int - 1,
            ));
        }
        end = end - 1;
    }
    proof {
        assert(s@.skip(start as int) =~= s@.subrange(start as int, n as int));
        assert(trim_end_spec(s@.subrange(start as int, end as int)) == s@.subrange(
            start as int,
            end as int,
        ));
    }
    s.substring_char(start, end)
}

/// Whether a character is an ASCII decimal digit.
pub open spec fn is_digit(c: char) -> bool {
    0x30 <= c as u32 && c as u32 <= 0x39
}

/// The numeric value of an ASCII decimal digit character.
pub open spec fn digit_val(c: char) -> int {
    c as u32 - 0x30
}

/// Whether every character of the sequence is an ASCII decimal digit.
pub open spec fn all_digits(s: Seq<char>) -> bool {
    forall|i: int| 0 <= i < s.len() ==> is_digit(s[i])
}

/// The value of a sequence of decimal digit characters, most significant
/// first.
pub open spec fn digits_val(s: Seq<char>) -> int
    decreases s.len(),
{
    if s.len() == 0 {
        0
    } else {
        digits_val(s.drop_last()) * 10 + digit_val(s.last())
    }
}

proof fn lemma_digits_val_nonneg(s: Seq<char>)
    requires
        all_digits(s),
    ensures
        digits_val(s) >= 0,
    decreases s.len(),
{
    if s.len() > 0 {
        lemma_digits_val_nonneg(s.drop_last());
    }
}

proof fn lemma_digits_val_prefix(s: Seq<char>, j: int)
    requires
        all_digits(s),
        0 <= j <= s.len(),
    ensures
        digits_val(s.take(j)) <= digits_val(s),
    decreases s.len() - j,
{
    if j < s.len() {
        lemma_digits_val_prefix(s, j + 1);
        assert(s.take(j + 1).drop_last() =~= s.take(j));
        assert(all_digits(s.take(j))) by {
            assert(forall|i: int| 0 <= i < j ==> s.take(j)[i] == s[i]);
        }
        lemma_digits_val_nonneg(s.take(j));
        assert(digits_val(s.take(j + 1)) == digits_val(s.take(j)) * 10 + digit_val(s[j]));
        assert(digits_val(s.take(j)) * 10 >= digits_val(s.take(j))) by (nonlinear_arith)
            requires
                digits_val(s.take(j)) >= 0,
        ;
    } else {
        assert(s.take(j) =~= s);
    }
}

/// The digit part of a numeral: an optional leading `+` sign is skipped.
pub open spec fn numeral_digits(s: Seq<char>) -> Seq<char> {
    if s.len() > 0 && s[0] == '+' {
        s.drop_first()
    } else {
        s
    }
}

/// What parsing a machine-word numeral yields, with malformed or
/// out-of-range input collapsing to zero: the behaviour of parsing tool
/// output and substituting zero for anything unparseable.
pub open spec fn parse_usize_or_zero_spec(s: Seq<char>) -> int {
    let d = numeral_digits(s);
    if d.len() > 0 && all_digits(d) && digits_val(d) <= usize::MAX {
        digits_val(d)
    } else {
        0
    }
}

/// Parses a decimal numeral (optionally signed with `+`), yielding zero on
/// malformed or out-of-range input.
pub fn parse_usize_or_zero(s: &str) -> (n: usize)
    ensures
        n == parse_usize_or_zero_spec(s@),
{
    let len = s.unicode_len();
    let start: usize = if len > 0 && s.get_char(0) == '+' {
        1
    } else {
        0
    };
    let ghost d = numeral_digits(s@);
    proof {
        assert(d =~= s@.skip(start as int));
    }
    if start == len {
        return 0;
    }
    let mut acc: usize = 0;
    let mut i: usize = start;
    while i < len
        invariant
            len == s@.len(),
            start <= i <= len,
            d == numeral_digits(s@),
            d =~= s@.skip(start as int),
            all_digits(d.take(i - start)),
            acc == digits_val(d.take(i - start)),
        decreases len - i,
    {
        let c = s.get_char(i);
        let u = c as u32;
        proof {
            assert(d[i - start] == s@[i as int]);
        }
        if !(0x30 <= u && u <= 0x39) {
            proof {
                assert(!is_digit(d[i - start]));
                assert(!all_digits(d));
            }
            return 0;
        }
        let digit = (u - 0x30) as usize;
        proof {
            assert(d.take(i - start + 1).drop_last() =~= d.take(i - start));
        }
        if acc > (usize::MAX - digit) / 10 {
            proof {
                lemma_digits_val_nonneg(d.take(i - start));
                assert(d.take(i - start + 1).last() == c);
                assert(digit_val(c) == digit);
                assert(digits_val(d.take(i - start + 1)) == acc * 10 + digit);
                assert(acc * 10 + digit > usize::MAX) by (nonlinear_arith)
                    requires
                        acc > (usize::MAX - digit) / 10,
                        acc >= 0,
                        0 <= digit <= 9,
                ;
                if all_digits(d) {
                    lemma_digits_val_prefix(d, i - start + 1);
                }
            }
            return 0;
        }
        acc = acc * 10 + digit;
        i = i + 1;
    }
    proof {
        assert(d.take(len - start) =~= d);
    }
    acc
}

/// The decimal digit character of a value below ten.
pub open spec fn digit_char(d: int) -> char {
    if d == 0 {
        '0'
    } else if d == 1 {
        '1'
    } else if d == 2 {
        '2'
    } else if d == 3 {
        '3'
    } else if d == 4 {
        '4'
    } else if d == 5 {
        '5'
    } else if d == 6 {
        '6'
    } else if d == 7 {
        '7'
    } else if d == 8 {
        '8'
    } else {
        '9'
    }
}

/// The decimal numeral of a non-negative value, most significant digit
/// first, with no sign and no leading zeros (zero itself is `"0"`).
pub open spec fn dec_str(n: int) -> Seq<char>
    decreases n,
{
    if n < 10 {
        seq![digit_char(n)]
    } else {
        dec_str(n / 10).push(digit_char(n % 10))
    }
}

fn digit_str(d: u64) -> (s: &'static str)
    requires
        d < 10,
    ensures
        s@ =~= seq![digit_char(d as int)],
{
    proof {
        reveal_strlit("0");
        reveal_strlit("1");
        reveal_strlit("2");
        reveal_strlit("3");
        reveal_strlit("4");
        reveal_strlit("5");
        reveal_strlit("6");
        reveal_strlit("7");
        reveal_strlit("8");
        reveal_strlit("9");
    }
    if d == 0 {
        "0"
    } else if d == 1 {
        "1"
    } else if d == 2 {
        "2"
    } else if d == 3 {
        "3"
    } else if d == 4 {
        "4"
    } else if d == 5 {
        "5"
    } else if d == 6 {
        "6"
    } else if d == 7 {
        "7"
    } else if d == 8 {
        "8"
    } else {
        "9"
    }
}

/// Formats a value as its decimal numeral.
pub fn u64_to_string(n: u64) -> (s: String)
    ensures
        s@ == dec_str(n as int),
    decreases n,
{
    if n < 10 {
        digit_str(n).to_owned()
    } else {
        let mut s = u64_to_string(n / 10);
        s.append(digit_str(n % 10));
        proof {
            assert(dec_str(n as int / 10).push(digit_char(n as int % 10)) =~= dec_str(
                n as int / 10,
            ) + seq![digit_char(n as int % 10)]);
        }
        s
    }
}

/// A count of hundredths shown with two decimal places, as sizes in
/// megabytes and percentages are shown.
pub open spec fn two_decimals(hundredths: int) -> Seq<char> {
    dec_str(hundredths / 100) + seq!['.'] + seq![
        digit_char((hundredths % 100) / 10),
        digit_char(hundredths % 100 % 10),
    ]
}

/// Formats a count of hundredths with two decimal places.
pub fn two_decimals_string(hundredths: u64) -> (s: String)
    ensures
        s@ == two_decimals(hundredths as int),
{
    let mut s = u64_to_string(hundredths / 100);
    proof {
        reveal_strlit(".");
    }
    s.append(".");
    let frac = hundredths % 100;
    s.append(digit_str(frac / 10));
    s.append(digit_str(frac % 10));
    proof {
        assert(s@ =~= two_decimals(hundredths as int));
    }
    s
}

/// A byte count in hundredths of a mebibyte, rounded to the nearest
/// hundredth with ties to even, as two-decimal formatting shows it.
pub open spec fn mb_hundredths(bytes: int) -> int {
    let floor = bytes * 100 / 0x100000;
    let rem = bytes * 100 % 0x100000;
    if 2 * rem > 0x100000 || (2 * rem == 0x100000 && floor % 2 == 1) {
        floor + 1
    } else {
        floor
    }
}

/// Converts a byte count to hundredths of a mebibyte, rounded to the
/// nearest hundredth with ties to even.
pub fn mb_hundredths_of(bytes: u64) -> (h: u64)
    ensures
        h == mb_hundredths(bytes as int),
{
    let q: u128 = (bytes as u128) * 100;
    let floor: u128 = q / 0x100000;
    let rem: u128 = q % 0x100000;
    proof {
        assert(bytes as int * 100 / 0x100000 <= bytes as int) by (nonlinear_arith);
        assert(bytes as int * 100 >= 0) by (nonlinear_arith);
        assert(bytes as int * 100 / 0x100000 < 0xFFFF_FFFF_FFFF_FFFFu64 as int) by {
            vstd::arithmetic::div_mod::lemma_div_is_ordered(
                bytes as int * 100,
                0xFFFF_FFFF_FFFF_FFFFu64 as int * 100,
                0x100000,
            );
        }
    }
    if 2 * rem > 0x100000 || (2 * rem == 0x100000 && floor % 2 == 1) {
        (floor + 1) as u64
    } else {
        floor as u64
    }
}

/// Character-wise string equality.
pub fn str_eq(a: &str, b: &str) -> (eq: bool)
    ensures
        eq == (a@ == b@),
{
    let n = a.unicode_len();
    if n != b.unicode_len() {
        return false;
    }
    let mut i: usize = 0;
    while i < n
        invariant
            n == a@.len() == b@.len(),
            i <= n,
            forall|k: int| 0 <= k < i ==> a@[k] == b@[k],
        decreases n - i,
    {
        if a.get_char(i) != b.get_char(i) {
            return false;
        }
        i = i + 1;
    }
    proof {
        assert(a@ =~= b@);
    }
    true
}

/// The position of the first line break in the sequence, or a negative
/// value when there is none.
pub open spec fn find_nl(s: Seq<char>) -> int
    decreases s.len(),
{
    if s.len() == 0 {
        -1
    } else if s[0] == '\n' {
        0
    } else {
        let rest = find_nl(s.drop_first());
        if rest < 0 {
            -1
        } else {
            rest + 1
        }
    }
}

proof fn lemma_find_nl_at(s: Seq<char>, j: int)
    requires
        0 <= j <= s.len(),
        forall|k: int| 0 <= k < j ==> s[k] != '\n',
        j < s.len() ==> s[j] == '\n',
    ensures
        find_nl(s) == if j < s.len() {
            j
        } else {
            -1
        },
    decreases s.len(),
{
    if s.len() > 0 && s[0] != '\n' {
        assert(j >= 1);
        assert(forall|k: int| 0 <= k < j - 1 ==> s.drop_first()[k] == s[k + 1]);
        lemma_find_nl_at(s.drop_first(), j - 1);
    }
}

/// A line with one trailing carriage return removed, as line splitting
/// strips it.
pub open spec fn strip_cr(line: Seq<char>) -> Seq<char> {
    if line.len() > 0 && line.last() == '\r' {
        line.drop_last()
    } else {
        line
    }
}

/// The lines of a text: split at line feeds, each line's trailing carriage
/// return stripped, with no final empty line for a trailing line feed.
pub open spec fn split_lines(s: Seq<char>) -> Seq<Seq<char>>
    decreases s.len(),
{
    if s.len() == 0 {
        Seq::empty()
    } else {
        let nl = find_nl(s);
        if nl < 0 {
            seq![strip_cr(s)]
        } else {
            // the cut is clamped into range to keep the recursion well founded
            let cut = if nl + 1 <= s.len() {
                nl + 1
            } else {
                s.len() as int
            };
            seq![strip_cr(s.take(cut - 1))] + split_lines(s.skip(cut))
        }
    }
}

/// Splits a text into its lines.
pub fn split_lines_exec(s: &str) -> (lines: Vec<String>)
    ensures
        lines@.map_values(|l: String| l@) == split_lines(s@),
{
    let n = s.unicode_len();
    let mut lines: Vec<String> = Vec::new();
    let mut i: usize = 0;
    proof {
        assert(s@.skip(0) =~= s@);
    }
    while i < n
        invariant
            n == s@.len(),
            i <= n,
            split_lines(s@) =~= lines@.map_values(|l: String| l@) + split_lines(
                s@.skip(i as int),
            ),
        decreases n - i,
    {
        let mut j: usize = i;
        while j < n && s.get_char(j) != '\n'
            invariant
                n == s@.len(),
                i <= j <= n,
                forall|k: int| i <= k < j ==> s@[k] != '\n',
            decreases n - j,
        {
            j = j + 1;
        }
        let line_len = j - i;
        let line = s.substring_char(i, j);
        let stripped: &str = if line_len > 0 && line.get_char(line_len - 1) == '\r' {
            line.substring_char(0, line_len - 1)
        } else {
            line
        };
        proof {
            let t = s@.skip(i as int);
            assert(forall|k: int| 0 <= k < j - i ==> t[k] == s@[k + i]);
            lemma_find_nl_at(t, j - i);
            assert(t.take(j - i) =~= s@.subrange(i as int, j as int));
            assert(line@ == t.take(j - i));
            assert(stripped@ =~= strip_cr(t.take(j - i)));
            if j < n {
                assert(t.skip(j - i + 1) =~= s@.skip(j as int + 1));
                assert(split_lines(t) =~= seq![strip_cr(t.take(j - i))] + split_lines(
                    s@.skip(j as int + 1),
                ));
            } else {
                assert(t.take(j - i) =~= t);
                assert(split_lines(t) =~= seq![strip_cr(t)]);
                assert(s@.skip(n as int) =~= Seq::<char>::empty());
            }
        }
        let ghost prev = lines@;
        lines.push(stripped.to_owned());
        proof {
            assert(lines@.map_values(|l: String| l@) =~= prev.map_values(|l: String| l@).push(
                stripped@,
            ));
        }
        i = if j < n {
            j + 1
        } else {
            n
        };
    }
    proof {
        assert(s@.skip(i as int) =~= Seq::<char>::empty());
        assert(lines@.map_values(|l: String| l@) + Seq::<Seq<char>>::empty()
            =~= lines@.map_values(|l: String| l@));
    }
    lines
}

/// The character sequences of a list of strings, in order.
pub open spec fn string_views(v: Seq<String>) -> Seq<Seq<char>> {
    v.map_values(|s: String| s@)
}

/// A run of spaces.
pub open spec fn spaces(n: int) -> Seq<char>
    decreases n,
{
    if n <= 0 {
        Seq::empty()
    } else {
        spaces(n - 1).push(' ')
    }
}

/// A string padded with spaces on the right up to the given width; a longer
/// string is kept whole.
pub open spec fn pad_right_spec(s: Seq<char>, width: int) -> Seq<char> {
    if s.len() >= width {
        s
    } else {
        s + spaces(width - s.len())
    }
}

/// Pads a string with spaces on the right up to the given width.
pub fn pad_right(s: &str, width: usize) -> (padded: String)
    ensures
        padded@ == pad_right_spec(s@, width as int),
{
    let mut padded = s.to_owned();
    let mut k = s.unicode_len();
    proof {
        reveal_strlit(" ");
        assert(s@ + spaces(0) =~= s@);
    }
    while k < width
        invariant
            s@.len() <= k,
            k <= width || k == s@.len(),
            padded@ =~= s@ + spaces(k - s@.len()),
        decreases width - k,
    {
        padded.append(" ");
        proof {
            reveal_strlit(" ");
            assert(s@ + spaces(k + 1 - s@.len()) =~= (s@ + spaces(k - s@.len())) + " "@);
        }
        k = k + 1;
    }
    proof {
        if s@.len() >= width {
            assert(padded@ =~= s@);
        }
    }
    padded
}

} // verus!
