//! Character-level text primitives shared by the composer, the chip grammar
//! and the status lines. Strings are modelled as their sequence of characters.

use vstd::prelude::*;

verus! {

/// Whether `c` has the Unicode `White_Space` property.
pub open spec fn is_blank(c: char) -> bool {
    let u = c as u32;
    ||| 0x9 <= u <= 0xD
    ||| u == 0x20
    ||| u == 0x85
    ||| u == 0xA0
    ||| u == 0x1680
    ||| 0x2000 <= u <= 0x200A
    ||| u == 0x2028
    ||| u == 0x2029
    ||| u == 0x202F
    ||| u == 0x205F
    ||| u == 0x3000
}

/// The Unicode whitespace test behind word motion and trimming.
pub fn is_whitespace(c: char) -> (blank: bool)
    ensures
        blank == is_blank(c),
{
    let u: u32 = c as u32;
    (0x9 <= u && u <= 0xD) || u == 0x20 || u == 0x85 || u == 0xA0 || u == 0x1680 || (0x2000 <= u
        && u <= 0x200A) || u == 0x2028 || u == 0x2029 || u == 0x202F || u == 0x205F || u == 0x3000
}

/// The number of characters of `s`.
pub fn char_count(s: &str) -> (n: usize)
    ensures
        n == s@.len(),
{
    s.unicode_len()
}

/// The characters of `s`, in order.
pub fn to_chars(s: &str) -> (chars: Vec<char>)
    ensures
        chars@ == s@,
{
    let mut chars: Vec<char> = Vec::new();
    for c in it: s.chars()
        invariant
            it.seq() == s@,
            chars@ == s@.take(it.index() as int),
    {
        chars.push(c);
    }
    proof {
        assert(s@.take(s@.len() as int) =~= s@);
    }
    chars
}

/// Moves the text out of `slot`, leaving it empty.
pub fn take_string(slot: &mut String) -> (taken: String)
    ensures
        taken == *old(slot),
        final(slot)@ == Seq::<char>::empty(),
{
    let mut taken: String = String::new();
    std::mem::swap(&mut taken, slot);
    taken
}

/// `s` with the characters of `[start, end)` replaced by `with`.
pub open spec fn spliced(s: Seq<char>, start: int, end: int, with: Seq<char>) -> Seq<char> {
    s.subrange(0, start) + with + s.subrange(end, s.len() as int)
}

/// Replaces the characters of `[start, end)` by `with`.
pub fn splice(s: &str, start: usize, end: usize, with: &str) -> (out: String)
    requires
        start <= end <= s@.len(),
    ensures
        out@ == spliced(s@, start as int, end as int, with@),
{
    let total: usize = s.unicode_len();
    let mut out: String = s.substring_char(0, start).to_owned();
    out.append(with);
    out.append(s.substring_char(end, total));
    out
}

/// `String::push` appends one character to the end of the string.
pub assume_specification[ String::push ](s: &mut String, c: char)
    ensures
        final(s)@ == old(s)@.push(c),
;

/// The string holding the single character `c`.
pub fn char_string(c: char) -> (s: String)
    ensures
        s@ == seq![c],
{
    let mut s: String = String::new();
    s.push(c);
    proof {
        assert(s@ =~= seq![c]);
    }
    s
}

/// Length of the leading run of whitespace of `s`.
pub open spec fn leading_blanks(s: Seq<char>) -> nat
    decreases s.len(),
{
    if s.len() == 0 || !is_blank(s[0]) {
        0
    } else {
        1 + leading_blanks(s.drop_first())
    }
}

/// Length of `s` without its trailing run of whitespace.
pub open spec fn end_of_text(s: Seq<char>) -> nat
    decreases s.len(),
{
    if s.len() == 0 {
        0
    } else if is_blank(s.last()) {
        end_of_text(s.drop_last())
    } else {
        s.len()
    }
}

/// `s` without its leading whitespace.
pub open spec fn trimmed_start(s: Seq<char>) -> Seq<char> {
    s.skip(leading_blanks(s) as int)
}

/// `s` without its trailing whitespace.
pub open spec fn trimmed_end(s: Seq<char>) -> Seq<char> {
    s.take(end_of_text(s) as int)
}

/// `s` without its leading and trailing whitespace.
pub open spec fn trimmed(s: Seq<char>) -> Seq<char> {
    trimmed_end(trimmed_start(s))
}

/// A prefix of whitespace that ends at a non-blank character, or at the end of
/// the text, is the leading run.
pub proof fn lemma_leading_blanks_unique(s: Seq<char>, k: int)
    requires
        0 <= k <= s.len(),
        forall|i: int| 0 <= i < k ==> is_blank(#[trigger] s[i]),
        k < s.len() ==> !is_blank(s[k]),
    ensures
        leading_blanks(s) == k,
    decreases s.len(),
{
    if k > 0 {
        assert(is_blank(s[0]));
        let rest = s.drop_first();
        assert forall|i: int| 0 <= i < k - 1 implies is_blank(#[trigger] rest[i]) by {
            assert(rest[i] == s[i + 1]);
        }
        if k < s.len() {
            assert(rest[k - 1] == s[k]);
        }
        lemma_leading_blanks_unique(rest, k - 1);
    }
}

pub proof fn lemma_end_of_text_unique(s: Seq<char>, k: int)
    requires
        0 <= k <= s.len(),
        forall|i: int| k <= i < s.len() ==> is_blank(#[trigger] s[i]),
        k > 0 ==> !is_blank(s[k - 1]),
    ensures
        end_of_text(s) == k,
    decreases s.len(),
{
    if s.len() > 0 && k < s.len() {
        assert(is_blank(s[s.len() - 1]));
        let rest = s.drop_last();
        assert forall|i: int| k <= i < rest.len() implies is_blank(#[trigger] rest[i]) by {
            assert(rest[i] == s[i]);
        }
        lemma_end_of_text_unique(rest, k);
    }
}

/// `s` without its leading whitespace.
pub fn trim_start(s: &str) -> (out: String)
    ensures
        out@ == trimmed_start(s@),
{
    let chars: Vec<char> = to_chars(s);
    let n: usize = chars.len();
    let mut i: usize = 0;
    while i < n && is_whitespace(chars[i])
        invariant
            n == chars@.len(),
            i <= n,
            forall|j: int| 0 <= j < i ==> is_blank(#[trigger] chars@[j]),
        decreases n - i,
    {
        i += 1;
    }
    proof {
        lemma_leading_blanks_unique(chars@, i as int);
    }
    s.substring_char(i, n).to_owned()
}

/// `s` without its leading and trailing whitespace.
pub fn trim(s: &str) -> (out: String)
    ensures
        out@ == trimmed(s@),
{
    let start: String = trim_start(s);
    let chars: Vec<char> = to_chars(start.as_str());
    let mut k: usize = chars.len();
    while k > 0 && is_whitespace(chars[k - 1])
        invariant
            k <= chars@.len(),
            forall|j: int| k <= j < chars@.len() ==> is_blank(#[trigger] chars@[j]),
        decreases k,
    {
        k -= 1;
    }
    proof {
        lemma_end_of_text_unique(chars@, k as int);
    }
    start.as_str().substring_char(0, k).to_owned()
}

/// Whether `s` begins with `prefix`.
pub open spec fn begins_with(s: Seq<char>, prefix: Seq<char>) -> bool {
    prefix.len() <= s.len() && s.subrange(0, prefix.len() as int) == prefix
}

/// Whether `s` begins with the character `c`.
pub fn starts_with_char(s: &str, c: char) -> (yes: bool)
    ensures
        yes == (s@.len() > 0 && s@[0] == c),
{
    s.unicode_len() > 0 && s.get_char(0) == c
}

/// Whether `s` ends with the character `c`.
pub fn ends_with_char(s: &str, c: char) -> (yes: bool)
    ensures
        yes == (s@.len() > 0 && s@.last() == c),
{
    let n: usize = s.unicode_len();
    n > 0 && s.get_char(n - 1) == c
}

/// Character-wise equality of two strings.
pub fn same_text(a: &str, b: &str) -> (same: bool)
    ensures
        same == (a@ == b@),
{
    let x: Vec<char> = to_chars(a);
    let y: Vec<char> = to_chars(b);
    let n: usize = x.len();
    if n != y.len() {
        return false;
    }
    let mut i: usize = 0;
    while i < n
        invariant
            n == x@.len(),
            n == y@.len(),
            x@ == a@,
            y@ == b@,
            i <= n,
            forall|j: int| 0 <= j < i ==> x@[j] == y@[j],
        decreases n - i,
    {
        if x[i] != y[i] {
            return false;
        }
        i += 1;
    }
    proof {
        assert(a@ =~= b@);
    }
    true
}

/// Whether `s` begins with `prefix`.
pub fn starts_with(s: &str, prefix: &str) -> (yes: bool)
    ensures
        yes == begins_with(s@, prefix@),
{
    let k: usize = prefix.unicode_len();
    k <= s.unicode_len() && same_text(s.substring_char(0, k), prefix)
}

/// Whether `needle` stands in `s` at position `at`.
pub open spec fn occurs_at(s: Seq<char>, needle: Seq<char>, at: int) -> bool {
    0 <= at && at + needle.len() <= s.len() && s.subrange(at, at + needle.len()) == needle
}

/// Whether `needle` occurs somewhere in `s`.
pub open spec fn contains_text(s: Seq<char>, needle: Seq<char>) -> bool {
    exists|at: int| occurs_at(s, needle, at)
}

/// Whether `needle` occurs somewhere in `s`.
pub fn contains(s: &str, needle: &str) -> (yes: bool)
    ensures
        yes == contains_text(s@, needle@),
{
    let n: usize = s.unicode_len();
    let k: usize = needle.unicode_len();
    if k > n {
        return false;
    }
    let mut at: usize = 0;
    while at <= n - k
        invariant
            n == s@.len(),
            k == needle@.len(),
            k <= n,
            at <= n - k + 1,
            forall|j: int| 0 <= j < at ==> !occurs_at(s@, needle@, j),
        decreases n - k + 1 - at,
    {
        if same_text(s.substring_char(at, at + k), needle) {
            proof {
                assert(occurs_at(s@, needle@, at as int));
            }
            return true;
        }
        if at == n - k {
            proof {
                assert forall|j: int| !occurs_at(s@, needle@, j) by {
                    assert(j > at ==> j + k > n);
                }
            }
            return false;
        }
        at += 1;
    }
    false
}

/// The character of the decimal digit `d`.
pub open spec fn digit_char(d: nat) -> char {
    ((48 + d) as u8) as char
}

/// The decimal digits of `n`, most significant first, without leading zeros.
pub open spec fn decimal(n: nat) -> Seq<char>
    decreases n,
{
    if n < 10 {
        seq![digit_char(n)]
    } else {
        decimal(n / 10).push(digit_char(n % 10))
    }
}

/// The decimal rendering of `n`.
pub fn decimal_string(n: u64) -> (s: String)
    ensures
        s@ == decimal(n as nat),
    decreases n,
{
    if n < 10 {
        char_string((48u8 + n as u8) as char)
    } else {
        let mut s: String = decimal_string(n / 10);
        s.push((48u8 + (n % 10) as u8) as char);
        s
    }
}

pub open spec fn is_digit(c: char) -> bool {
    '0' <= c <= '9'
}

pub open spec fn all_digits(s: Seq<char>) -> bool {
    forall|i: int| 0 <= i < s.len() ==> is_digit(#[trigger] s[i])
}

/// The number that the digits of `s` spell in base ten.
pub open spec fn digits_value(s: Seq<char>) -> nat
    decreases s.len(),
{
    if s.len() == 0 {
        0
    } else {
        digits_value(s.drop_last()) * 10 + (s.last() as nat - 48) as nat
    }
}

/// `s` without one leading plus sign.
pub open spec fn without_plus(s: Seq<char>) -> Seq<char> {
    if s.len() > 0 && s[0] == '+' {
        s.drop_first()
    } else {
        s
    }
}

/// The unsigned number that `s` spells: an optional plus sign, then at least
/// one digit and nothing else, with a value of at most `max`.
pub open spec fn parsed_number(s: Seq<char>, max: nat) -> Option<nat> {
    let digits = without_plus(s);
    if digits.len() > 0 && all_digits(digits) && digits_value(digits) <= max {
        Some(digits_value(digits))
    } else {
        None
    }
}

proof fn lemma_digits_value_monotone(s: Seq<char>, k: int)
    requires
        0 <= k <= s.len(),
    ensures
        digits_value(s.take(k)) <= digits_value(s),
    decreases s.len(),
{
    if k == s.len() {
        assert(s.take(k) =~= s);
    } else {
        lemma_digits_value_monotone(s.drop_last(), k);
        assert(s.drop_last().take(k) =~= s.take(k));
    }
}

/// Parses an unsigned number of at most `max`.
pub fn parse_number(s: &str, max: usize) -> (r: Option<usize>)
    ensures
        match r {
            Some(v) => parsed_number(s@, max as nat) == Some(v as nat),
            None => parsed_number(s@, max as nat) is None,
        },
{
    let all: Vec<char> = to_chars(s);
    let start: usize = if all.len() > 0 && all[0] == '+' { 1 } else { 0 };
    let n: usize = all.len();
    let ghost digits = without_plus(s@);
    proof {
        assert(digits =~= s@.skip(start as int));
    }
    if start == n {
        return None;
    }
    let mut value: usize = 0;
    let mut i: usize = start;
    while i < n
        invariant
            n == all@.len(),
            all@ == s@,
            start <= i <= n,
            digits == s@.skip(start as int),
            digits == without_plus(s@),
            digits.len() == n - start,
            digits.len() > 0,
            value <= max,
            value == digits_value(digits.take(i - start)),
            forall|j: int| 0 <= j < i - start ==> is_digit(#[trigger] digits[j]),
        decreases n - i,
    {
        let c: char = all[i];
        proof {
            assert(digits[i - start] == c);
            assert(digits.take(i - start + 1).drop_last() =~= digits.take(i - start));
            assert(digits.take(i - start + 1).last() == c);
            lemma_digits_value_monotone(digits, i - start + 1);
        }
        if c < '0' || c > '9' {
            return None;
        }
        let d: usize = (c as u32 - 48) as usize;
        if value > max / 10 || d > max - value * 10 {
            return None;
        }
        value = value * 10 + d;
        i += 1;
    }
    proof {
        assert(digits.take(n - start) =~= digits);
    }
    Some(value)
}

pub proof fn lemma_decimal_digits(n: nat)
    ensures
        decimal(n).len() > 0,
        all_digits(decimal(n)),
        digits_value(decimal(n)) == n,
    decreases n,
{
    if n < 10 {
        assert(decimal(n).drop_last() =~= Seq::<char>::empty());
        assert(digits_value(decimal(n).drop_last()) == 0);
    } else {
        lemma_decimal_digits(n / 10);
        let head = decimal(n / 10);
        assert(decimal(n).drop_last() =~= head);
        assert forall|i: int| 0 <= i < decimal(n).len() implies is_digit(#[trigger] decimal(n)[i]) by {
            if i < head.len() {
                assert(decimal(n)[i] == head[i]);
            }
        }
    }
}

/// Reading back a rendered number gives the number.
pub proof fn law_parse_undoes_decimal(n: nat, max: nat)
    requires
        n <= max,
    ensures
        parsed_number(decimal(n), max) == Some(n),
{
    lemma_decimal_digits(n);
    assert(is_digit(decimal(n)[0]));
}

/// Different numbers render differently.
pub proof fn law_decimal_injective(m: nat, n: nat)
    requires
        decimal(m) == decimal(n),
    ensures
        m == n,
{
    lemma_decimal_digits(m);
    lemma_decimal_digits(n);
}

/// The position of the first newline of `s`, or its length.
pub open spec fn first_newline(s: Seq<char>) -> nat
    decreases s.len(),
{
    if s.len() == 0 || s[0] == '\n' {
        0
    } else {
        1 + first_newline(s.drop_first())
    }
}

/// The text of `s` before its first newline.
pub open spec fn first_line(s: Seq<char>) -> Seq<char> {
    s.take(first_newline(s) as int)
}

pub proof fn lemma_first_newline_unique(s: Seq<char>, k: int)
    requires
        0 <= k <= s.len(),
        forall|i: int| 0 <= i < k ==> #[trigger] s[i] != '\n',
        k < s.len() ==> s[k] == '\n',
    ensures
        first_newline(s) == k,
    decreases s.len(),
{
    if k > 0 {
        assert(s[0] != '\n');
        let rest = s.drop_first();
        assert forall|i: int| 0 <= i < k - 1 implies #[trigger] rest[i] != '\n' by {
            assert(rest[i] == s[i + 1]);
        }
        if k < s.len() {
            assert(rest[k - 1] == s[k]);
        }
        lemma_first_newline_unique(rest, k - 1);
    }
}

/// The text of `s` before its first newline.
pub fn take_first_line(s: &str) -> (line: String)
    ensures
        line@ == first_line(s@),
{
    let chars: Vec<char> = to_chars(s);
    let n: usize = chars.len();
    let mut i: usize = 0;
    while i < n && chars[i] != '\n'
        invariant
            n == chars@.len(),
            i <= n,
            forall|j: int| 0 <= j < i ==> #[trigger] chars@[j] != '\n',
        decreases n - i,
    {
        i += 1;
    }
    proof {
        lemma_first_newline_unique(chars@, i as int);
    }
    s.substring_char(0, i).to_owned()
}

/// `s`, cut to its first `limit` characters and marked with `...` when longer.
pub open spec fn clipped(s: Seq<char>, limit: nat) -> Seq<char> {
    if s.len() > limit {
        s.take(limit as int) + "..."@
    } else {
        s
    }
}

/// Cuts `s` to its first `limit` characters, marking the cut with `...`.
pub fn clip(s: &str, limit: usize) -> (out: String)
    ensures
        out@ == clipped(s@, limit as nat),
{
    if s.unicode_len() > limit {
        let mut out: String = s.substring_char(0, limit).to_owned();
        out.append("...");
        out
    } else {
        s.to_owned()
    }
}

/// Bytes that `c` takes in UTF-8.
pub open spec fn char_bytes(c: char) -> nat {
    let u = c as u32;
    if u < 0x80 {
        1
    } else if u < 0x800 {
        2
    } else if u < 0x10000 {
        3
    } else {
        4
    }
}

/// Bytes that `s` takes in UTF-8.
pub open spec fn byte_len(s: Seq<char>) -> nat
    decreases s.len(),
{
    if s.len() == 0 {
        0
    } else {
        byte_len(s.drop_last()) + char_bytes(s.last())
    }
}

/// Bytes that `c` takes in UTF-8.
pub fn utf8_width(c: char) -> (n: usize)
    ensures
        n == char_bytes(c),
{
    let u: u32 = c as u32;
    if u < 0x80 {
        1
    } else if u < 0x800 {
        2
    } else if u < 0x10000 {
        3
    } else {
        4
    }
}

pub proof fn lemma_byte_len_bounds(s: Seq<char>)
    ensures
        s.len() <= byte_len(s) <= 4 * s.len(),
    decreases s.len(),
{
    if s.len() > 0 {
        lemma_byte_len_bounds(s.drop_last());
    }
}

pub proof fn lemma_byte_len_concat(a: Seq<char>, b: Seq<char>)
    ensures
        byte_len(a + b) == byte_len(a) + byte_len(b),
    decreases b.len(),
{
    if b.len() == 0 {
        assert(a + b =~= a);
    } else {
        assert((a + b).drop_last() =~= a + b.drop_last());
        lemma_byte_len_concat(a, b.drop_last());
    }
}

/// A longer prefix takes more bytes.
pub proof fn lemma_byte_len_prefix(s: Seq<char>, i: int, j: int)
    requires
        0 <= i <= j <= s.len(),
    ensures
        byte_len(s.take(i)) + (j - i) <= byte_len(s.take(j)),
{
    let mid = s.subrange(i, j);
    assert(s.take(j) =~= s.take(i) + mid);
    lemma_byte_len_concat(s.take(i), mid);
    lemma_byte_len_bounds(mid);
}

/// Bytes that `s` takes in UTF-8.
pub fn utf8_len(s: &str) -> (n: u128)
    ensures
        n == byte_len(s@),
        n <= 4 * usize::MAX as nat,
{
    let chars: Vec<char> = to_chars(s);
    let count: usize = chars.len();
    let mut n: u128 = 0;
    let mut i: usize = 0;
    while i < count
        invariant
            count == chars@.len(),
            i <= count,
            n == byte_len(chars@.take(i as int)),
            n <= 4 * i,
        decreases count - i,
    {
        n = n + utf8_width(chars[i]) as u128;
        i += 1;
        proof {
            assert(chars@.take(i as int).drop_last() =~= chars@.take(i - 1));
        }
    }
    proof {
        assert(chars@.take(count as int) =~= chars@);
    }
    n
}

/// Whether the byte offset `b` falls between two characters of `s`, or at one
/// of its ends.
pub open spec fn is_boundary(s: Seq<char>, b: int) -> bool {
    exists|i: int| 0 <= i <= s.len() && byte_len(#[trigger] s.take(i)) == b
}

/// The number of characters of `s` in front of the byte offset `b`.
pub open spec fn char_index(s: Seq<char>, b: int) -> int {
    choose|i: int| 0 <= i <= s.len() && byte_len(#[trigger] s.take(i)) == b
}

pub proof fn lemma_char_index(s: Seq<char>, i: int)
    requires
        0 <= i <= s.len(),
    ensures
        is_boundary(s, byte_len(s.take(i)) as int),
        char_index(s, byte_len(s.take(i)) as int) == i,
{
    let b = byte_len(s.take(i)) as int;
    let k = char_index(s, b);
    assert(0 <= k <= s.len() && byte_len(s.take(k)) == b);
    if k < i {
        lemma_byte_len_prefix(s, k, i);
    } else if i < k {
        lemma_byte_len_prefix(s, i, k);
    }
}

/// Converts a byte offset into a character index.
pub fn char_index_at(s: &str, b: usize) -> (r: Option<usize>)
    ensures
        match r {
            Some(i) => is_boundary(s@, b as int) && i == char_index(s@, b as int) && i <= s@.len(),
            None => !is_boundary(s@, b as int),
        },
{
    let chars: Vec<char> = to_chars(s);
    let count: usize = chars.len();
    let mut n: u128 = 0;
    let mut i: usize = 0;
    while i < count && n < b as u128
        invariant
            count == chars@.len(),
            i <= count,
            n == byte_len(chars@.take(i as int)),
            n <= 4 * i,
            i > 0 ==> byte_len(chars@.take(i - 1)) < b,
        decreases count - i,
    {
        n = n + utf8_width(chars[i]) as u128;
        i += 1;
        proof {
            assert(chars@.take(i as int).drop_last() =~= chars@.take(i - 1));
        }
    }
    if n == b as u128 {
        proof {
            lemma_char_index(s@, i as int);
        }
        Some(i)
    } else {
        proof {
            assert forall|k: int| 0 <= k <= s@.len() implies byte_len(#[trigger] s@.take(k)) != b by {
                if k < i {
                    lemma_byte_len_prefix(s@, k, i - 1);
                } else {
                    lemma_byte_len_prefix(s@, i as int, k);
                }
            }
        }
        None
    }
}

/// Appends `more` to `s`.
pub fn append_text(s: &mut String, more: &str)
    ensures
        final(s)@ == old(s)@ + more@,
{
    let mut out: String = take_string(s);
    out.append(more);
    *s = out;
}

/// Length of the run of non-whitespace that begins at the start of `s`.
pub open spec fn word_len(s: Seq<char>) -> nat
    decreases s.len(),
{
    if s.len() == 0 || is_blank(s[0]) {
        0
    } else {
        word_len(s.drop_first()) + 1
    }
}

/// The second of the words of `s`, which whitespace separates.
pub open spec fn second_word_of(s: Seq<char>) -> Option<Seq<char>> {
    let first = trimmed_start(s);
    let rest = trimmed_start(first.skip(word_len(first) as int));
    if word_len(rest) == 0 {
        None
    } else {
        Some(rest.take(word_len(rest) as int))
    }
}

fn first_word_len(s: &str) -> (n: usize)
    ensures
        n == word_len(s@),
        n <= s@.len(),
{
    let chars: Vec<char> = to_chars(s);
    let count: usize = chars.len();
    let mut i: usize = 0;
    proof {
        assert(s@.skip(0) =~= s@);
    }
    while i < count && !is_whitespace(chars[i])
        invariant
            i <= count,
            count == chars@.len(),
            chars@ == s@,
            word_len(s@) == i + word_len(s@.skip(i as int)),
        decreases count - i,
    {
        proof {
            assert(s@.skip(i as int)[0] == s@[i as int]);
            assert(s@.skip(i as int).drop_first() =~= s@.skip(i + 1));
        }
        i += 1;
    }
    proof {
        if i < count {
            assert(s@.skip(i as int)[0] == s@[i as int]);
        }
    }
    i
}

/// The second of the words of `s`.
pub fn second_word(s: &str) -> (word: Option<String>)
    ensures
        match word {
            Some(w) => second_word_of(s@) == Some(w@),
            None => second_word_of(s@) is None,
        },
{
    let first: String = trim_start(s);
    let n: usize = first_word_len(first.as_str());
    let tail: &str = first.as_str().substring_char(n, first.as_str().unicode_len());
    proof {
        assert(tail@ =~= first@.skip(n as int));
    }
    let rest: String = trim_start(tail);
    let m: usize = first_word_len(rest.as_str());
    if m == 0 {
        None
    } else {
        let word: String = rest.as_str().substring_char(0, m).to_owned();
        proof {
            assert(word@ =~= rest@.take(m as int));
        }
        Some(word)
    }
}

} // verus!
