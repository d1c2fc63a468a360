//! Text: searching, trimming, splitting, and numbers written in decimal or hexadecimal.

use vstd::prelude::*;
use vstd::string::*;

verus! {

/// `String::push`: appends one character at the end.
pub assume_specification[ String::push ](s: &mut String, c: char)
    ensures
        final(s)@ == old(s)@.push(c),
;

// ---------------------------------------------------------------------------------------------
// Characters of a string
// ---------------------------------------------------------------------------------------------

/// The characters of `s`, in order.
pub fn chars_of(s: &str) -> (r: Vec<char>)
    ensures
        r@ == s@,
{
    let mut out: Vec<char> = Vec::new();
    for c in it: s.chars()
        invariant
            out@ == it.seq().take(it.index() as int),
            it.seq() == s@,
    {
        out.push(c);
    }
    assert(s@.take(s@.len() as int) == s@);
    out
}

/// The string with the characters `chars[from..to]`.
pub fn string_of(chars: &Vec<char>, from: usize, to: usize) -> (r: String)
    requires
        from <= to <= chars@.len(),
    ensures
        r@ == chars@.subrange(from as int, to as int),
{
    let mut out = String::new();
    let mut i: usize = from;
    while i < to
        invariant
            from <= i <= to <= chars@.len(),
            out@ == chars@.subrange(from as int, i as int),
        decreases to - i,
    {
        out.push(chars[i]);
        i = i + 1;
    }
    out
}

// ---------------------------------------------------------------------------------------------
// Searching
// ---------------------------------------------------------------------------------------------

/// `pat` stands in `s` at position `i`.
pub open spec fn occurs_at(s: Seq<char>, pat: Seq<char>, i: int) -> bool {
    0 <= i <= s.len() - pat.len() && s.subrange(i, i + pat.len()) == pat
}

/// `pat` stands somewhere in `s`.
pub open spec fn contains_text(s: Seq<char>, pat: Seq<char>) -> bool {
    exists|i: int| occurs_at(s, pat, i)
}

/// Whether `pat` stands in `s` at position `i`.
fn matches_at(s: &Vec<char>, pat: &Vec<char>, i: usize) -> (r: bool)
    requires
        i + pat.len() <= s.len(),
    ensures
        r == occurs_at(s@, pat@, i as int),
{
    let mut k: usize = 0;
    while k < pat.len()
        invariant
            k <= pat.len(),
            i + pat.len() <= s.len(),
            forall|j: int| 0 <= j < k ==> s@[i + j] == pat@[j],
        decreases pat@.len() - k,
    {
        if s[i + k] != pat[k] {
            assert(s@.subrange(i as int, i + pat@.len())[k as int] == s@[i + k]);
            return false;
        }
        k = k + 1;
    }
    assert(s@.subrange(i as int, i + pat@.len()) == pat@);
    true
}

/// Whether `pat` stands somewhere in `s`.
pub fn contains(s: &str, pat: &str) -> (r: bool)
    ensures
        r == contains_text(s@, pat@),
{
    let text = chars_of(s);
    let pattern = chars_of(pat);
    if pattern.len() > text.len() {
        return false;
    }
    let last: usize = text.len() - pattern.len();
    let mut i: usize = 0;
    while i <= last
        invariant
            text@ == s@,
            pattern@ == pat@,
            last == text@.len() - pattern@.len(),
            i <= last + 1,
            forall|j: int| 0 <= j < i ==> !occurs_at(s@, pat@, j),
        decreases last + 1 - i,
    {
        if matches_at(&text, &pattern, i) {
            return true;
        }
        if i == last {
            return false;
        }
        i = i + 1;
    }
    false
}

// ---------------------------------------------------------------------------------------------
// Trimming
// ---------------------------------------------------------------------------------------------

/// The characters with the Unicode property `White_Space`.
pub open spec fn white_space(c: char) -> bool {
    let n = c as u32;
    ||| 0x09 <= n <= 0x0d
    ||| n == 0x20
    ||| n == 0x85
    ||| n == 0xa0
    ||| n == 0x1680
    ||| 0x2000 <= n <= 0x200a
    ||| n == 0x2028
    ||| n == 0x2029
    ||| n == 0x202f
    ||| n == 0x205f
    ||| n == 0x3000
}

/// Whether `c` has the Unicode property `White_Space`.
pub fn is_white_space(c: char) -> (r: bool)
    ensures
        r == white_space(c),
{
    let n: u32 = c as u32;
    (0x09 <= n && n <= 0x0d) || n == 0x20 || n == 0x85 || n == 0xa0 || n == 0x1680 || (0x2000 <= n
        && n <= 0x200a) || n == 0x2028 || n == 0x2029 || n == 0x202f || n == 0x205f || n == 0x3000
}

/// `s` without the white space at its start.
pub open spec fn without_leading_space(s: Seq<char>) -> Seq<char>
    decreases s.len(),
{
    if s.len() > 0 && white_space(s[0]) {
        without_leading_space(s.skip(1))
    } else {
        s
    }
}

/// `s` without the white space at its end.
pub open spec fn without_trailing_space(s: Seq<char>) -> Seq<char>
    decreases s.len(),
{
    if s.len() > 0 && white_space(s.last()) {
        without_trailing_space(s.drop_last())
    } else {
        s
    }
}

/// `s` without the white space at its two ends.
pub open spec fn trimmed(s: Seq<char>) -> Seq<char> {
    without_trailing_space(without_leading_space(s))
}

/// `s` without the run of `c` at its end.
pub open spec fn without_trailing(s: Seq<char>, c: char) -> Seq<char>
    decreases s.len(),
{
    if s.len() > 0 && s.last() == c {
        without_trailing(s.drop_last(), c)
    } else {
        s
    }
}

/// The part of `chars` that is left when the white space at its two ends is taken off.
fn trim_chars(chars: &Vec<char>) -> (r: String)
    ensures
        r@ == trimmed(chars@),
{
    let mut from: usize = 0;
    assert(chars@.skip(0) == chars@);
    while from < chars.len() && is_white_space(chars[from])
        invariant
            from <= chars.len(),
            without_leading_space(chars@) == without_leading_space(chars@.skip(from as int)),
        decreases chars.len() - from,
    {
        assert(chars@.skip(from as int).skip(1) == chars@.skip(from + 1));
        from = from + 1;
    }
    let ghost rest = chars@.skip(from as int);
    assert(without_leading_space(chars@) == rest);
    let mut to: usize = chars.len();
    assert(rest == chars@.subrange(from as int, to as int));
    while to > from && is_white_space(chars[to - 1])
        invariant
            from <= to <= chars.len(),
            without_trailing_space(rest) == without_trailing_space(
                chars@.subrange(from as int, to as int),
            ),
        decreases to,
    {
        assert(chars@.subrange(from as int, to as int).drop_last() == chars@.subrange(
            from as int,
            to - 1,
        ));
        to = to - 1;
    }
    string_of(chars, from, to)
}

/// `s` without the white space at its two ends.
pub fn trim(s: &str) -> (r: String)
    ensures
        r@ == trimmed(s@),
{
    let chars = chars_of(s);
    trim_chars(&chars)
}

/// `s` without the run of `c` at its end.
pub fn trim_end_matches(s: &str, c: char) -> (r: String)
    ensures
        r@ == without_trailing(s@, c),
{
    let chars = chars_of(s);
    let mut to: usize = chars.len();
    assert(chars@.take(to as int) == chars@);
    while to > 0 && chars[to - 1] == c
        invariant
            to <= chars.len(),
            without_trailing(chars@, c) == without_trailing(chars@.take(to as int), c),
        decreases to,
    {
        assert(chars@.take(to as int).drop_last() == chars@.take(to - 1));
        to = to - 1;
    }
    assert(chars@.take(to as int) == chars@.subrange(0, to as int));
    string_of(&chars, 0, to)
}

// ---------------------------------------------------------------------------------------------
// Splitting
// ---------------------------------------------------------------------------------------------

/// The texts that `v` holds.
pub open spec fn texts(v: Seq<String>) -> Seq<Seq<char>> {
    v.map_values(|s: String| s@)
}

/// The pieces of `s` between the occurrences of `sep`; one more than there are occurrences.
pub open spec fn split_on(s: Seq<char>, sep: char) -> Seq<Seq<char>>
    decreases s.len(),
{
    if s.len() == 0 {
        seq![Seq::<char>::empty()]
    } else {
        let before = split_on(s.drop_last(), sep);
        if s.last() == sep {
            before.push(Seq::<char>::empty())
        } else {
            before.drop_last().push(before.last().push(s.last()))
        }
    }
}

/// The pieces of `s` between the occurrences of `sep`, trimmed, without those that are blank.
pub open spec fn trimmed_fields(s: Seq<char>, sep: char) -> Seq<Seq<char>> {
    split_on(s, sep).map_values(|piece: Seq<char>| trimmed(piece)).filter(
        |piece: Seq<char>| piece.len() > 0,
    )
}

/// The pieces of `pieces`, trimmed, without those that are blank.
spec fn kept(pieces: Seq<Seq<char>>) -> Seq<Seq<char>> {
    pieces.map_values(|piece: Seq<char>| trimmed(piece)).filter(|piece: Seq<char>| piece.len() > 0)
}

proof fn lemma_kept_push(pieces: Seq<Seq<char>>, piece: Seq<char>)
    ensures
        kept(pieces.push(piece)) == if trimmed(piece).len() > 0 {
            kept(pieces).push(trimmed(piece))
        } else {
            kept(pieces)
        },
{
    reveal(Seq::filter);
    let f = |p: Seq<char>| trimmed(p);
    let whole = pieces.push(piece).map_values(f);
    assert(whole.drop_last() == pieces.map_values(f));
    assert(whole.last() == trimmed(piece));
}

/// Adds the trimmed piece to `out` unless it is blank.
fn keep_field(out: &mut Vec<String>, piece: &Vec<char>)
    ensures
        texts(final(out)@) == if trimmed(piece@).len() > 0 {
            texts(old(out)@).push(trimmed(piece@))
        } else {
            texts(old(out)@)
        },
{
    let text = trim_chars(piece);
    if !text.as_str().is_empty() {
        out.push(text);
        assert(texts(out@) == texts(old(out)@).push(trimmed(piece@)));
    }
}

/// The pieces of `s` between the occurrences of `sep`, trimmed, without those that are blank.
pub fn split_trimmed(s: &str, sep: char) -> (r: Vec<String>)
    ensures
        texts(r@) == trimmed_fields(s@, sep),
{
    let chars = chars_of(s);
    let mut out: Vec<String> = Vec::new();
    let mut piece: Vec<char> = Vec::new();
    let ghost mut done: Seq<Seq<char>> = Seq::empty();
    let mut i: usize = 0;
    proof {
        reveal(Seq::filter);
        assert(chars@.take(0) == Seq::<char>::empty());
        assert(split_on(chars@.take(0), sep) == done.push(piece@));
        assert(texts(out@) == kept(done));
    }
    while i < chars.len()
        invariant
            i <= chars.len(),
            split_on(chars@.take(i as int), sep) == done.push(piece@),
            texts(out@) == kept(done),
        decreases chars.len() - i,
    {
        let c = chars[i];
        proof {
            assert(chars@.take(i + 1).drop_last() == chars@.take(i as int));
            assert(chars@.take(i + 1).last() == c);
            assert(done.push(piece@).drop_last() == done);
        }
        if c == sep {
            proof {
                lemma_kept_push(done, piece@);
                done = done.push(piece@);
            }
            keep_field(&mut out, &piece);
            piece = Vec::new();
        } else {
            piece.push(c);
        }
        i = i + 1;
    }
    proof {
        assert(chars@.take(i as int) == s@);
        lemma_kept_push(done, piece@);
    }
    keep_field(&mut out, &piece);
    out
}

// ---------------------------------------------------------------------------------------------
// Numbers
// ---------------------------------------------------------------------------------------------

/// The digit that stands for `d` in bases up to sixteen, in lower case.
pub open spec fn digit(d: nat) -> char {
    if d < 10 {
        ('0' as u32 + d) as char
    } else {
        ('a' as u32 + d - 10) as char
    }
}

/// A quotient by two or more is smaller than what was divided.
pub proof fn lemma_quotient_smaller(n: nat, base: nat)
    by (nonlinear_arith)
    requires
        2 <= base <= n,
    ensures
        n / base < n,
{
}

/// `n` written in `base`, without leading zeros.
pub open spec fn numeral(n: nat, base: nat) -> Seq<char>
    decreases n,
{
    if base < 2 || n < base {
        seq![digit(n)]
    } else {
        proof {
            lemma_quotient_smaller(n, base);
        }
        numeral(n / base, base).push(digit(n % base))
    }
}

/// `n` in decimal.
pub open spec fn decimal(n: nat) -> Seq<char> {
    numeral(n, 10)
}

/// `n` in lower-case hexadecimal behind `0x`, as JSON-RPC writes a quantity.
pub open spec fn hex_quantity(n: nat) -> Seq<char> {
    "0x"@ + numeral(n, 16)
}

/// The digit that stands for `d`.
fn digit_char(d: u64) -> (r: char)
    requires
        d < 16,
    ensures
        r == digit(d as nat),
{
    if d < 10 {
        (48u8 + d as u8) as char
    } else {
        (87u8 + d as u8) as char
    }
}

/// Appends `n`, written in `base`.
fn push_numeral(out: &mut String, n: u64, base: u64)
    requires
        2 <= base <= 16,
    ensures
        final(out)@ == old(out)@ + numeral(n as nat, base as nat),
    decreases n,
{
    proof {
        reveal_with_fuel(numeral, 2);
    }
    if n >= base {
        proof {
            lemma_quotient_smaller(n as nat, base as nat);
        }
        push_numeral(out, n / base, base);
    }
    out.push(digit_char(n % base));
    assert(n < base ==> n % base == n) by (nonlinear_arith)
        requires
            0 < base,
    ;
    assert(out@ == old(out)@ + numeral(n as nat, base as nat));
}

/// Appends `n` in decimal.
pub fn push_decimal(out: &mut String, n: u64)
    ensures
        final(out)@ == old(out)@ + decimal(n as nat),
{
    push_numeral(out, n, 10);
}

/// `n` in decimal.
pub fn decimal_text(n: u64) -> (r: String)
    ensures
        r@ == decimal(n as nat),
{
    let mut out = String::new();
    push_decimal(&mut out, n);
    out
}

/// `n` as JSON-RPC writes a quantity: `0x` and lower-case hexadecimal without leading zeros.
pub fn hex_quantity_text(n: u64) -> (r: String)
    ensures
        r@ == hex_quantity(n as nat),
{
    let mut out = "0x".to_owned();
    push_numeral(&mut out, n, 16);
    out
}

/// `c` is a decimal digit.
pub open spec fn is_decimal_digit(c: char) -> bool {
    '0' <= c <= '9'
}

/// The number that a run of decimal digits denotes.
pub open spec fn decimal_value(s: Seq<char>) -> nat
    decreases s.len(),
{
    if s.len() == 0 {
        0
    } else {
        (decimal_value(s.drop_last()) * 10 + (s.last() as u32 - '0' as u32)) as nat
    }
}

/// What `s` holds behind a leading plus sign, or `s` where it has none.
pub open spec fn unsigned_part(s: Seq<char>) -> Seq<char> {
    if s.len() > 0 && s[0] == '+' {
        s.skip(1)
    } else {
        s
    }
}

/// `s` is a decimal number: an optional plus sign, then at least one digit and nothing else.
pub open spec fn is_decimal_number(s: Seq<char>) -> bool {
    let digits = unsigned_part(s);
    digits.len() > 0 && forall|i: int| 0 <= i < digits.len() ==> is_decimal_digit(#[trigger] digits[i])
}

/// The `usize` that `s` denotes, where it is a decimal number that fits.
pub open spec fn parsed_usize(s: Seq<char>) -> Option<usize> {
    if is_decimal_number(s) && decimal_value(unsigned_part(s)) <= usize::MAX {
        Some(decimal_value(unsigned_part(s)) as usize)
    } else {
        None
    }
}

proof fn lemma_decimal_value_prefix(s: Seq<char>, i: int)
    requires
        0 <= i <= s.len(),
        forall|k: int| 0 <= k < s.len() ==> is_decimal_digit(#[trigger] s[k]),
    ensures
        decimal_value(s.take(i)) <= decimal_value(s),
    decreases s.len() - i,
{
    if i < s.len() {
        lemma_decimal_value_prefix(s, i + 1);
        assert(s.take(i + 1).drop_last() == s.take(i));
        assert(is_decimal_digit(s[i]));
    } else {
        assert(s.take(i) == s);
    }
}

/// Reads a decimal number with an optional plus sign; `None` where `s` is none or does not fit.
pub fn parse_usize(s: &str) -> (r: Option<usize>)
    ensures
        r == parsed_usize(s@),
{
    let chars = chars_of(s);
    let mut i: usize = 0;
    if chars.len() > 0 && chars[0] == '+' {
        i = 1;
    }
    let start: usize = i;
    let ghost digits = unsigned_part(s@);
    assert(start == 0 ==> digits == s@);
    if i == chars.len() {
        return None;
    }
    let mut value: usize = 0;
    assert(digits.take(0) == Seq::<char>::empty());
    while i < chars.len()
        invariant
            start <= i <= chars.len(),
            chars@ == s@,
            digits == unsigned_part(s@),
            digits == s@.skip(start as int),
            digits.len() > 0,
            forall|k: int| 0 <= k < i - start ==> is_decimal_digit(#[trigger] digits[k]),
            value == decimal_value(digits.take(i - start)),
        decreases chars.len() - i,
    {
        let c = chars[i];
        let ghost at = i - start;
        assert(digits[at] == c);
        if !('0' <= c && c <= '9') {
            return None;
        }
        let d: usize = (c as u32 - 48) as usize;
        assert(digits.take(at + 1).drop_last() == digits.take(at));
        let next = match value.checked_mul(10) {
            None => None,
            Some(tens) => tens.checked_add(d),
        };
        match next {
            None => {
                proof {
                    if is_decimal_number(s@) {
                        lemma_decimal_value_prefix(digits, at + 1);
                    }
                }
                return None;
            },
            Some(v) => {
                value = v;
            },
        }
        i = i + 1;
    }
    assert(digits.take(i - start) == digits);
    Some(value)
}

/// The truth value that `s` spells.
pub open spec fn parsed_bool(s: Seq<char>) -> Option<bool> {
    if s == "true"@ {
        Some(true)
    } else if s == "false"@ {
        Some(false)
    } else {
        None
    }
}

/// Reads `true` or `false`.
pub fn parse_bool(s: &str) -> (r: Option<bool>)
    ensures
        r == parsed_bool(s@),
{
    if same_text(s, "true") {
        Some(true)
    } else if same_text(s, "false") {
        Some(false)
    } else {
        None
    }
}

/// Whether two strings hold the same characters.
pub fn same_text(a: &str, b: &str) -> (r: bool)
    ensures
        r == (a@ == b@),
{
    let left = chars_of(a);
    let right = chars_of(b);
    if left.len() != right.len() {
        return false;
    }
    let mut i: usize = 0;
    while i < left.len()
        invariant
            left@ == a@,
            right@ == b@,
            left.len() == right.len(),
            i <= left.len(),
            forall|k: int| 0 <= k < i ==> left@[k] == right@[k],
        decreases left.len() - i,
    {
        if left[i] != right[i] {
            return false;
        }
        i = i + 1;
    }
    assert(a@ == b@);
    true
}

// ---------------------------------------------------------------------------------------------
// Laws
// ---------------------------------------------------------------------------------------------

/// The value of a digit in bases up to sixteen.
pub open spec fn digit_value(c: char) -> nat {
    if '0' <= c <= '9' {
        (c as u32 - '0' as u32) as nat
    } else if 'a' <= c <= 'f' {
        (c as u32 - 'a' as u32 + 10) as nat
    } else {
        0
    }
}

/// The number that a run of digits denotes in `base`.
pub open spec fn numeral_value(s: Seq<char>, base: nat) -> nat
    decreases s.len(),
{
    if s.len() == 0 {
        0
    } else {
        numeral_value(s.drop_last(), base) * base + digit_value(s.last())
    }
}

/// Reading a numeral gives back the number that was written, in every base from two to sixteen.
pub proof fn law_numeral_round_trip(n: nat, base: nat)
    requires
        2 <= base <= 16,
    ensures
        numeral_value(numeral(n, base), base) == n,
        numeral(n, base).len() >= 1,
    decreases n,
{
    reveal_with_fuel(numeral_value, 2);
    if n < base {
        assert(seq![digit(n)].drop_last() == Seq::<char>::empty());
        assert(0 * base == 0);
    } else {
        lemma_quotient_smaller(n, base);
        law_numeral_round_trip(n / base, base);
        let head = numeral(n / base, base);
        assert(head.push(digit(n % base)).drop_last() == head);
        assert(n % base < base && (n / base) * base + n % base == n) by (nonlinear_arith)
            requires
                2 <= base,
        ;
    }
}

/// Different block numbers are written as different JSON-RPC quantities.
pub proof fn law_hex_quantity_injective(m: nat, n: nat)
    requires
        hex_quantity(m) == hex_quantity(n),
    ensures
        m == n,
{
    reveal_strlit("0x");
    assert(hex_quantity(m).skip(2) == numeral(m, 16));
    assert(hex_quantity(n).skip(2) == numeral(n, 16));
    law_numeral_round_trip(m, 16);
    law_numeral_round_trip(n, 16);
}

/// A number in decimal is a run of digits, with the number as its value.
pub proof fn lemma_decimal_digits(n: nat)
    ensures
        forall|i: int|
            0 <= i < decimal(n).len() ==> is_decimal_digit(#[trigger] decimal(n)[i]),
        decimal_value(decimal(n)) == n,
        decimal(n).len() >= 1,
    decreases n,
{
    reveal_with_fuel(decimal_value, 2);
    if n < 10 {
        assert(decimal(n) == seq![digit(n)]);
        assert(seq![digit(n)].drop_last() == Seq::<char>::empty());
    } else {
        lemma_decimal_digits(n / 10);
        let head = decimal(n / 10);
        assert(decimal(n) == head.push(digit(n % 10)));
        assert(head.push(digit(n % 10)).drop_last() == head);
    }
}

/// A number written in decimal is read back as itself.
pub proof fn law_decimal_parses_back(n: nat)
    requires
        n <= usize::MAX,
    ensures
        parsed_usize(decimal(n)) == Some(n as usize),
{
    lemma_decimal_digits(n);
    assert(is_decimal_digit(decimal(n)[0]));
    assert(unsigned_part(decimal(n)) == decimal(n));
}

/// What is left of a text after trimming has no white space at its two ends.
pub proof fn law_trimmed_has_bare_ends(s: Seq<char>)
    ensures
        trimmed(s).len() > 0 ==> !white_space(trimmed(s)[0]) && !white_space(trimmed(s).last()),
{
    lemma_leading_bare(s);
    lemma_trailing_bare(without_leading_space(s));
}

proof fn lemma_leading_bare(s: Seq<char>)
    ensures
        without_leading_space(s).len() > 0 ==> !white_space(without_leading_space(s)[0]),
    decreases s.len(),
{
    if s.len() > 0 && white_space(s[0]) {
        lemma_leading_bare(s.skip(1));
    }
}

proof fn lemma_trailing_bare(s: Seq<char>)
    ensures
        without_trailing_space(s).len() <= s.len(),
        without_trailing_space(s) == s.take(without_trailing_space(s).len() as int),
        without_trailing_space(s).len() > 0 ==> !white_space(without_trailing_space(s).last()),
    decreases s.len(),
{
    if s.len() > 0 && white_space(s.last()) {
        lemma_trailing_bare(s.drop_last());
        let n = without_trailing_space(s.drop_last()).len() as int;
        assert(s.drop_last().take(n) == s.take(n));
    } else {
        assert(s.take(s.len() as int) == s);
    }
}

/// A text has no more occurrences of `c` at its end once they have been taken off.
pub proof fn law_trailing_run_is_gone(s: Seq<char>, c: char)
    ensures
        without_trailing(s, c).len() > 0 ==> without_trailing(s, c).last() != c,
        without_trailing(without_trailing(s, c), c) == without_trailing(s, c),
    decreases s.len(),
{
    if s.len() > 0 && s.last() == c {
        law_trailing_run_is_gone(s.drop_last(), c);
    }
}

/// Trimming takes white space off the two ends of a text, and nothing else.
pub proof fn law_trimming_takes_off_only_space(s: Seq<char>)
    ensures
        exists|i: int, j: int|
            {
                &&& 0 <= i <= j <= s.len()
                &&& trimmed(s) == #[trigger] s.subrange(i, j)
                &&& forall|k: int| 0 <= k < i ==> white_space(#[trigger] s[k])
                &&& forall|k: int| j <= k < s.len() ==> white_space(#[trigger] s[k])
            },
        trimmed(s).len() > 0 ==> !white_space(trimmed(s)[0]) && !white_space(trimmed(s).last()),
{
    let head = without_leading_space(s);
    let i = s.len() - head.len();
    lemma_leading_parts(s);
    lemma_trailing_parts(head);
    let j = i + trimmed(s).len();
    assert(trimmed(s) =~= s.subrange(i, j));
    assert forall|k: int| j <= k < s.len() implies white_space(#[trigger] s[k]) by {
        assert(head[k - i] == s[k]);
    }
    law_trimmed_has_bare_ends(s);
}

proof fn lemma_leading_parts(s: Seq<char>)
    ensures
        without_leading_space(s).len() <= s.len(),
        without_leading_space(s) == s.skip(s.len() - without_leading_space(s).len()),
        forall|k: int|
            0 <= k < s.len() - without_leading_space(s).len() ==> white_space(#[trigger] s[k]),
    decreases s.len(),
{
    if s.len() > 0 && white_space(s[0]) {
        let rest = s.skip(1);
        lemma_leading_parts(rest);
        let n = without_leading_space(s).len();
        assert(rest.skip(rest.len() - n) == s.skip(s.len() - n));
        assert forall|k: int| 0 <= k < s.len() - n implies white_space(#[trigger] s[k]) by {
            if k > 0 {
                assert(rest[k - 1] == s[k]);
            }
        }
    } else {
        assert(s.skip(0) == s);
    }
}

proof fn lemma_trailing_parts(s: Seq<char>)
    ensures
        without_trailing_space(s).len() <= s.len(),
        without_trailing_space(s) == s.take(without_trailing_space(s).len() as int),
        forall|k: int|
            without_trailing_space(s).len() <= k < s.len() ==> white_space(#[trigger] s[k]),
    decreases s.len(),
{
    if s.len() > 0 && white_space(s.last()) {
        let rest = s.drop_last();
        lemma_trailing_parts(rest);
        let n = without_trailing_space(s).len() as int;
        assert(rest.take(n) == s.take(n));
        assert forall|k: int| n <= k < s.len() implies white_space(#[trigger] s[k]) by {
            if k < s.len() - 1 {
                assert(rest[k] == s[k]);
            }
        }
    } else {
        assert(s.take(s.len() as int) == s);
    }
}

/// Blanks, tabs and line ends are white space, and so are the blanks of other scripts; no printable
/// character of ASCII is.
pub proof fn law_white_space_is_not_printed(c: char)
    ensures
        c == ' ' || c == '\t' || c == '\n' || c == '\r' ==> white_space(c),
        c as u32 == 0x0b || c as u32 == 0x0c || c as u32 == 0x85 || c as u32 == 0xa0 || c as u32
            == 0x1680 || 0x2000 <= c as u32 <= 0x200a || c as u32 == 0x2028 || c as u32 == 0x2029
            || c as u32 == 0x202f || c as u32 == 0x205f || c as u32 == 0x3000 ==> white_space(c),
        0x21 <= c as u32 <= 0x84 ==> !white_space(c),
        (c as u32) < 0x09 || 0x0e <= c as u32 <= 0x1f || 0x86 <= c as u32 <= 0x9f || 0xa1 <= c as u32
            <= 0x167f || 0x1681 <= c as u32 <= 0x1fff || 0x200b <= c as u32 <= 0x2027 || 0x202a
            <= c as u32 <= 0x202e || 0x2030 <= c as u32 <= 0x205e || 0x2060 <= c as u32 <= 0x2fff
            || c as u32 > 0x3000 ==> !white_space(c),
{
}

/// What is taken off the end of a text is the run of `c` there, all of it and nothing else.
pub proof fn law_only_the_trailing_run_is_gone(s: Seq<char>, c: char)
    ensures
        without_trailing(s, c).len() <= s.len(),
        s.take(without_trailing(s, c).len() as int) == without_trailing(s, c),
        forall|i: int| without_trailing(s, c).len() <= i < s.len() ==> #[trigger] s[i] == c,
        without_trailing(s, c).len() > 0 ==> without_trailing(s, c).last() != c,
    decreases s.len(),
{
    if s.len() > 0 && s.last() == c {
        let rest = s.drop_last();
        law_only_the_trailing_run_is_gone(rest, c);
        let n = without_trailing(s, c).len() as int;
        assert(s.take(n) == rest.take(n));
        assert forall|i: int| n <= i < s.len() implies #[trigger] s[i] == c by {
            if i < s.len() - 1 {
                assert(rest[i] == s[i]);
            }
        }
    } else {
        assert(s.take(s.len() as int) == s);
    }
}

/// A text is found exactly where it stands between what comes before it and what comes behind it.
pub proof fn law_contained_text_stands_between(s: Seq<char>, pat: Seq<char>)
    ensures
        contains_text(s, pat) <==> exists|i: int|
            {
                &&& 0 <= i <= s.len() - pat.len()
                &&& s == #[trigger] s.take(i) + pat + s.skip(i + pat.len())
            },
{
    if contains_text(s, pat) {
        let i = choose|i: int| occurs_at(s, pat, i);
        assert(s == s.take(i) + pat + s.skip(i + pat.len())) by {
            assert forall|k: int| i <= k < i + pat.len() implies s[k] == pat[k - i] by {
                assert(s.subrange(i, i + pat.len())[k - i] == s[k]);
            }
        }
    }
    if exists|i: int|
        {
            &&& 0 <= i <= s.len() - pat.len()
            &&& s == #[trigger] s.take(i) + pat + s.skip(i + pat.len())
        } {
        let i = choose|i: int|
            {
                &&& 0 <= i <= s.len() - pat.len()
                &&& s == #[trigger] s.take(i) + pat + s.skip(i + pat.len())
            };
        let whole = s.take(i) + pat + s.skip(i + pat.len());
        assert(whole.subrange(i, i + pat.len()) == pat);
        assert(occurs_at(s, pat, i));
    }
}

/// A text that is put together around another one contains it.
pub proof fn lemma_contains_between(before: Seq<char>, pat: Seq<char>, behind: Seq<char>)
    ensures
        contains_text(before + pat + behind, pat),
{
    let s = before + pat + behind;
    assert(s.subrange(before.len() as int, (before.len() + pat.len()) as int) == pat);
    assert(occurs_at(s, pat, before.len() as int));
}

/// The texts between the separators hold no separator, and put together again with separators
/// between them they give the whole.
pub proof fn law_split_pieces_join_back(s: Seq<char>, sep: char)
    ensures
        split_on(s, sep).len() >= 1,
        forall|i: int, k: int|
            #![trigger split_on(s, sep)[i][k]]
            0 <= i < split_on(s, sep).len() && 0 <= k < split_on(s, sep)[i].len() ==> split_on(
                s,
                sep,
            )[i][k] != sep,
        joined_with(split_on(s, sep), sep) == s,
    decreases s.len(),
{
    reveal_with_fuel(joined_with, 2);
    if s.len() > 0 {
        let before = split_on(s.drop_last(), sep);
        law_split_pieces_join_back(s.drop_last(), sep);
        let pieces = split_on(s, sep);
        assert(s == s.drop_last().push(s.last()));
        if s.last() == sep {
            assert(pieces.drop_last() == before);
            assert(joined_with(pieces, sep) == joined_with(before, sep).push(sep)
                + Seq::<char>::empty());
        } else {
            assert(pieces.drop_last() == before.drop_last());
            assert(pieces.last() == before.last().push(s.last()));
            if before.len() > 1 {
                assert(joined_with(before, sep) == joined_with(before.drop_last(), sep).push(sep)
                    + before.last());
                assert(joined_with(pieces, sep) =~= joined_with(before, sep).push(s.last()));
            } else {
                assert(joined_with(before, sep) == before.last());
                assert(joined_with(pieces, sep) =~= joined_with(before, sep).push(s.last()));
            }
        }
    } else {
        assert(joined_with(split_on(s, sep), sep) =~= s);
    }
}

/// The pieces one behind the other, with `sep` between them.
pub open spec fn joined_with(pieces: Seq<Seq<char>>, sep: char) -> Seq<char>
    decreases pieces.len(),
{
    if pieces.len() == 0 {
        Seq::<char>::empty()
    } else if pieces.len() == 1 {
        pieces[0]
    } else {
        joined_with(pieces.drop_last(), sep).push(sep) + pieces.last()
    }
}

/// A field is one of the pieces between the separators, without the space around it; and every
/// piece that holds more than space is a field.
pub proof fn law_fields_are_the_pieces(s: Seq<char>, sep: char, field: Seq<char>)
    ensures
        trimmed_fields(s, sep).contains(field) <==> field.len() > 0 && exists|i: int|
            0 <= i < split_on(s, sep).len() && field == trimmed(#[trigger] split_on(s, sep)[i]),
        trimmed_fields(s, sep).len() <= split_on(s, sep).len(),
{
    let pieces = split_on(s, sep).map_values(|piece: Seq<char>| trimmed(piece));
    let keep = |piece: Seq<char>| piece.len() > 0;
    assert(trimmed_fields(s, sep) == pieces.filter(keep));
    pieces.lemma_filter_len(keep);
    if trimmed_fields(s, sep).contains(field) {
        let k = choose|k: int| 0 <= k < pieces.filter(keep).len() && pieces.filter(keep)[k] == field;
        pieces.lemma_filter_pred(keep, k);
        assert(keep(pieces.filter(keep)[k]));
        pieces.lemma_filter_contains_rev(keep, field);
        let i = choose|i: int| 0 <= i < pieces.len() && pieces[i] == field;
        assert(field == trimmed(split_on(s, sep)[i]));
    }
    if field.len() > 0 && (exists|i: int|
        0 <= i < split_on(s, sep).len() && field == trimmed(#[trigger] split_on(s, sep)[i])) {
        let i = choose|i: int|
            0 <= i < split_on(s, sep).len() && field == trimmed(#[trigger] split_on(s, sep)[i]);
        assert(pieces[i] == field);
        pieces.lemma_filter_contains(keep, i);
    }
}

/// A number is written without a leading zero, in the digits `0` to `9` and `a` to `f` that its
/// base has; zero is written as one digit.
pub proof fn law_numeral_has_no_leading_zero(n: nat, base: nat)
    requires
        2 <= base <= 16,
    ensures
        numeral(0, base) == seq!['0'],
        n > 0 ==> numeral(n, base)[0] != '0',
        numeral(n, base).len() >= 1,
        forall|i: int|
            0 <= i < numeral(n, base).len() ==> ('0' <= #[trigger] numeral(n, base)[i] <= '9' || 'a'
                <= numeral(n, base)[i] <= 'f') && digit_value(numeral(n, base)[i]) < base,
    decreases n,
{
    if n >= base {
        lemma_quotient_smaller(n, base);
        assert(n / base > 0) by (nonlinear_arith)
            requires
                2 <= base <= n,
        ;
        law_numeral_has_no_leading_zero(n / base, base);
        assert(n % base < base) by (nonlinear_arith)
            requires
                2 <= base,
        ;
        let head = numeral(n / base, base);
        assert(numeral(n, base) == head.push(digit(n % base)));
    }
}

/// What a JSON-RPC quantity denotes is what it was written for: `0x`, and then the number.
pub proof fn law_hex_quantity_denotes_its_number(n: nat)
    ensures
        hex_quantity(n).len() >= 3,
        hex_quantity(n)[0] == '0',
        hex_quantity(n)[1] == 'x',
        numeral_value(hex_quantity(n).skip(2), 16) == n,
        n > 0 ==> hex_quantity(n)[2] != '0',
{
    reveal_strlit("0x");
    assert(hex_quantity(n).skip(2) == numeral(n, 16));
    law_numeral_round_trip(n, 16);
    law_numeral_has_no_leading_zero(n, 16);
}

/// A number is read off exactly those texts that consist of digits, with or without one plus sign
/// before them, and the number is what the digits denote.
pub proof fn law_parsed_number_is_what_the_digits_denote(s: Seq<char>)
    requires
        s.len() > 0,
    ensures
        s[0] != '+' && (exists|i: int| 0 <= i < s.len() && !('0' <= #[trigger] s[i] <= '9'))
            ==> parsed_usize(s) is None,
        s[0] == '+' ==> parsed_usize(s) == (if s.len() > 1 && s[1] == '+' {
            None
        } else {
            parsed_usize(s.skip(1))
        }),
        (forall|i: int| 0 <= i < s.len() ==> '0' <= #[trigger] s[i] <= '9') ==> parsed_usize(s) == (
        if numeral_value(s, 10) <= usize::MAX {
            Some(numeral_value(s, 10) as usize)
        } else {
            None
        }),
        parsed_usize(Seq::<char>::empty()) is None,
{
    if s[0] == '+' {
        let rest = s.skip(1);
        assert(unsigned_part(s) == rest);
        if rest.len() > 0 && rest[0] == '+' {
            assert(!is_decimal_digit(rest[0]));
        } else {
            assert(unsigned_part(rest) == rest);
        }
    } else {
        assert(unsigned_part(s) == s);
        if exists|i: int| 0 <= i < s.len() && !('0' <= #[trigger] s[i] <= '9') {
            let i = choose|i: int| 0 <= i < s.len() && !('0' <= #[trigger] s[i] <= '9');
            assert(!is_decimal_digit(s[i]));
        }
    }
    if forall|i: int| 0 <= i < s.len() ==> '0' <= #[trigger] s[i] <= '9' {
        lemma_decimal_value_is_numeral_value(s);
        assert(s[0] != '+');
    }
}

proof fn lemma_decimal_value_is_numeral_value(s: Seq<char>)
    requires
        forall|i: int| 0 <= i < s.len() ==> '0' <= #[trigger] s[i] <= '9',
    ensures
        decimal_value(s) == numeral_value(s, 10),
    decreases s.len(),
{
    if s.len() > 0 {
        assert(s[s.len() - 1] == s.last());
        lemma_decimal_value_is_numeral_value(s.drop_last());
    }
}

/// The two truth values are read off their names, and nothing is read off any other text.
pub proof fn law_truth_values_are_read_off_their_names(s: Seq<char>)
    ensures
        parsed_bool("true"@) == Some(true),
        parsed_bool("false"@) == Some(false),
        parsed_bool(s) matches Some(b) ==> s == if b {
            "true"@
        } else {
            "false"@
        },
{
    reveal_strlit("true");
    reveal_strlit("false");
    assert("true"@.len() != "false"@.len());
}

} // verus!
