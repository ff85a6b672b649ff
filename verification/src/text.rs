//! Character-level text utilities shared by the rest of the crate.
//!
//! Every string is modelled by its sequence of characters. The executable
//! helpers first spread a `&str` into a `Vec<char>`, work on index ranges of
//! that vector, and cut the answer out of the string itself.

use vstd::prelude::*;

verus! {

/// The characters that count as white space: those with the Unicode
/// `White_Space` property.
pub open spec fn is_space(c: char) -> bool {
    let u = c as u32;
    ||| 0x09 <= u <= 0x0D
    ||| u == 0x20
    ||| u == 0x85
    ||| u == 0xA0
    ||| u == 0x1680
    ||| 0x2000 <= u <= 0x200A
    ||| u == 0x2028
    ||| u == 0x2029
    ||| u == 0x202F
    ||| u == 0x205F
    ||| u == 0x3000
}

/// `s` without its leading white space.
pub open spec fn trim_start(s: Seq<char>) -> Seq<char>
    decreases s.len(),
{
    if s.len() > 0 && is_space(s.first()) {
        trim_start(s.drop_first())
    } else {
        s
    }
}

/// `s` without its trailing white space.
pub open spec fn trim_end(s: Seq<char>) -> Seq<char>
    decreases s.len(),
{
    if s.len() > 0 && is_space(s.last()) {
        trim_end(s.drop_last())
    } else {
        s
    }
}

/// `s` without its leading and trailing white space.
pub open spec fn trim(s: Seq<char>) -> Seq<char> {
    trim_end(trim_start(s))
}

/// Whether `s` neither begins nor ends with white space.
pub open spec fn is_trimmed(s: Seq<char>) -> bool {
    s.len() > 0 ==> !is_space(s.first()) && !is_space(s.last())
}

/// Tells whether `c` is white space.
pub fn is_whitespace(c: char) -> (b: bool)
    ensures
        b == is_space(c),
{
    let u: u32 = c as u32;
    (0x09 <= u && u <= 0x0D) || u == 0x20 || u == 0x85 || u == 0xA0 || u == 0x1680 || (0x2000 <= u
        && u <= 0x200A) || u == 0x2028 || u == 0x2029 || u == 0x202F || u == 0x205F || u == 0x3000
}

/// Collects the characters of `s` into a vector.
pub fn chars_of(s: &str) -> (out: Vec<char>)
    ensures
        out@ == s@,
{
    let mut out: Vec<char> = Vec::new();
    for c in it: s.chars()
        invariant
            it.seq() == s@,
            out@ == it.seq().take(it.index() as int),
    {
        out.push(c);
    }
    out
}

/// Narrows the range `lo..hi` of `chars` to what is left of it once the white
/// space at both ends is gone.
pub fn trim_range(chars: &Vec<char>, lo: usize, hi: usize) -> (r: (usize, usize))
    requires
        lo <= hi <= chars.len(),
    ensures
        lo <= r.0 <= r.1 <= hi,
        chars@.subrange(r.0 as int, r.1 as int) == trim(chars@.subrange(lo as int, hi as int)),
{
    let mut a: usize = lo;
    while a < hi && is_whitespace(chars[a])
        invariant
            lo <= a <= hi <= chars.len(),
            trim_start(chars@.subrange(lo as int, hi as int)) == trim_start(
                chars@.subrange(a as int, hi as int),
            ),
        decreases hi - a,
    {
        assert(chars@.subrange(a as int, hi as int).drop_first() == chars@.subrange(
            a + 1,
            hi as int,
        ));
        a += 1;
    }
    let mut b: usize = hi;
    while a < b && is_whitespace(chars[b - 1])
        invariant
            a <= b <= hi <= chars.len(),
            trim_end(chars@.subrange(a as int, hi as int)) == trim_end(
                chars@.subrange(a as int, b as int),
            ),
        decreases b - a,
    {
        assert(chars@.subrange(a as int, b as int).drop_last() == chars@.subrange(
            a as int,
            b - 1,
        ));
        b -= 1;
    }
    (a, b)
}

/// Whether `pat` stands in `s` at position `i`.
pub open spec fn matches_at(s: Seq<char>, pat: Seq<char>, i: int) -> bool {
    0 <= i && i + pat.len() <= s.len() && s.subrange(i, i + pat.len()) == pat
}

/// The first position at or after `from` where `pat` stands in `s`.
pub open spec fn find_from(s: Seq<char>, pat: Seq<char>, from: int) -> Option<int>
    decreases s.len() + 1 - from,
{
    if from < 0 || from + pat.len() > s.len() {
        None
    } else if matches_at(s, pat, from) {
        Some(from)
    } else {
        find_from(s, pat, from + 1)
    }
}

/// The first position where `pat` stands in `s`.
pub open spec fn find(s: Seq<char>, pat: Seq<char>) -> Option<int> {
    find_from(s, pat, 0)
}

/// `s` without the prefix `pat`, or `s` itself where it does not begin
/// with `pat`.
pub open spec fn strip_prefix(s: Seq<char>, pat: Seq<char>) -> Seq<char> {
    if matches_at(s, pat, 0) {
        s.skip(pat.len() as int)
    } else {
        s
    }
}

/// `find_from` returns the least matching position, if there is one.
pub proof fn lemma_find_from(s: Seq<char>, pat: Seq<char>, from: int)
    requires
        0 <= from,
    ensures
        match find_from(s, pat, from) {
            Some(i) => from <= i && matches_at(s, pat, i) && forall|j: int|
                from <= j < i ==> !matches_at(s, pat, j),
            None => forall|j: int| from <= j ==> !matches_at(s, pat, j),
        },
    decreases s.len() + 1 - from,
{
    if from + pat.len() <= s.len() && !matches_at(s, pat, from) {
        lemma_find_from(s, pat, from + 1);
    }
}

/// A position that matches, with none before it, is the one `find` returns.
pub proof fn lemma_find_is(s: Seq<char>, pat: Seq<char>, i: int)
    requires
        matches_at(s, pat, i),
        forall|j: int| 0 <= j < i ==> !matches_at(s, pat, j),
    ensures
        find(s, pat) == Some(i),
{
    lemma_find_from(s, pat, 0);
}

/// Tells whether `pat` stands in `chars` at position `i`.
pub fn matches_here(chars: &Vec<char>, pat: &Vec<char>, i: usize, hi: usize) -> (b: bool)
    requires
        i <= hi <= chars.len(),
    ensures
        b == matches_at(chars@.subrange(0, hi as int), pat@, i as int),
{
    let m = pat.len();
    if m > hi - i {
        return false;
    }
    let mut k: usize = 0;
    while k < m && chars[i + k] == pat[k]
        invariant
            i + m <= hi <= chars.len(),
            m == pat.len(),
            k <= m,
            forall|j: int| 0 <= j < k ==> chars@[i + j] == pat@[j],
        decreases m - k,
    {
        k += 1;
    }
    let ghost head = chars@.subrange(0, hi as int);
    if k == m {
        assert(head.subrange(i as int, i + m) =~= pat@);
        true
    } else {
        assert(head.subrange(i as int, i + m)[k as int] != pat@[k as int]);
        false
    }
}

/// Looks for the first place in the range `lo..hi` of `chars` where `pat`
/// stands wholly inside the range.
pub fn find_in(chars: &Vec<char>, lo: usize, hi: usize, pat: &Vec<char>) -> (r: Option<usize>)
    requires
        lo <= hi <= chars.len(),
    ensures
        match r {
            Some(i) => lo <= i <= hi && find(chars@.subrange(lo as int, hi as int), pat@) == Some(
                i - lo,
            ),
            None => find(chars@.subrange(lo as int, hi as int), pat@) is None,
        },
{
    let ghost part = chars@.subrange(lo as int, hi as int);
    let m = pat.len();
    if m > hi - lo {
        return None;
    }
    if m == 0 {
        assert(part.subrange(0, 0) =~= pat@);
        return Some(lo);
    }
    let mut i: usize = lo;
    while i <= hi - m
        invariant
            lo <= i,
            0 < m,
            lo + m <= hi <= chars.len(),
            m == pat.len(),
            part == chars@.subrange(lo as int, hi as int),
            i <= hi - m + 1,
            find(part, pat@) == find_from(part, pat@, i - lo),
        decreases hi - i,
    {
        let found = matches_here(chars, pat, i, hi);
        proof {
            let head = chars@.subrange(0, hi as int);
            assert(head.subrange(i as int, i + m) =~= part.subrange(i - lo, i - lo + m));
        }
        if found {
            return Some(i);
        }
        i += 1;
    }
    None
}

/// Cuts the characters `lo..hi` out of `s`.
pub fn slice(s: &str, lo: usize, hi: usize) -> (out: String)
    requires
        lo <= hi <= s@.len(),
    ensures
        out@ == s@.subrange(lo as int, hi as int),
{
    s.substring_char(lo, hi).to_owned()
}

/// Returns `s` without its leading and trailing white space.
pub fn trimmed(s: &str) -> (out: String)
    ensures
        out@ == trim(s@),
{
    let chars = chars_of(s);
    let (lo, hi) = trim_range(&chars, 0, chars.len());
    assert(chars@.subrange(0, chars.len() as int) == chars@);
    slice(s, lo, hi)
}

/// Returns `s` without the prefix `pat`, or `s` itself where it does not
/// begin with `pat`.
pub fn without_prefix(s: &str, pat: &str) -> (out: String)
    ensures
        out@ == strip_prefix(s@, pat@),
{
    let chars = chars_of(s);
    let pattern = chars_of(pat);
    assert(chars@.subrange(0, chars.len() as int) == chars@);
    if matches_here(&chars, &pattern, 0, chars.len()) {
        slice(s, pattern.len(), chars.len())
    } else {
        s.to_owned()
    }
}

/// `trim_start` drops a run of white space from the front, and the whole of it.
pub proof fn lemma_trim_start(s: Seq<char>) -> (a: int)
    ensures
        0 <= a <= s.len(),
        trim_start(s) == s.skip(a),
        forall|j: int| 0 <= j < a ==> is_space(s[j]),
        a < s.len() ==> !is_space(s[a]),
    decreases s.len(),
{
    if s.len() > 0 && is_space(s.first()) {
        let rest = lemma_trim_start(s.drop_first());
        assert(s.drop_first().skip(rest) == s.skip(rest + 1));
        assert forall|j: int| 0 <= j < rest + 1 implies is_space(s[j]) by {
            if j > 0 {
                assert(s[j] == s.drop_first()[j - 1]);
            }
        }
        rest + 1
    } else {
        assert(s.skip(0) == s);
        0
    }
}

/// `trim_end` drops a run of white space from the back, and the whole of it.
pub proof fn lemma_trim_end(s: Seq<char>) -> (b: int)
    ensures
        0 <= b <= s.len(),
        trim_end(s) == s.take(b),
        forall|j: int| b <= j < s.len() ==> is_space(s[j]),
        0 < b ==> !is_space(s[b - 1]),
    decreases s.len(),
{
    if s.len() > 0 && is_space(s.last()) {
        let rest = lemma_trim_end(s.drop_last());
        assert(s.drop_last().take(rest) == s.take(rest));
        assert forall|j: int| rest <= j < s.len() implies is_space(s[j]) by {
            if j < s.len() - 1 {
                assert(s[j] == s.drop_last()[j]);
            }
        }
        rest
    } else {
        assert(s.take(s.len() as int) == s);
        s.len() as int
    }
}

/// `trim` keeps one range of `s`, which neither begins nor ends with white
/// space; what it drops is white space.
pub proof fn lemma_trim(s: Seq<char>) -> (r: (int, int))
    ensures
        0 <= r.0 <= r.1 <= s.len(),
        trim(s) == s.subrange(r.0, r.1),
        is_trimmed(trim(s)),
        forall|j: int| 0 <= j < r.0 ==> is_space(s[j]),
        forall|j: int| r.1 <= j < s.len() ==> is_space(s[j]),
{
    let a = lemma_trim_start(s);
    let b = lemma_trim_end(s.skip(a));
    assert(s.skip(a).take(b) == s.subrange(a, a + b));
    assert forall|j: int| a + b <= j < s.len() implies is_space(s[j]) by {
        assert(s[j] == s.skip(a)[j - a]);
    }
    (a, a + b)
}

/// Trimming changes nothing in a text that neither begins nor ends with
/// white space.
pub proof fn lemma_trim_of_trimmed(s: Seq<char>)
    requires
        is_trimmed(s),
    ensures
        trim(s) == s,
{
}

/// White space put before or after a text is trimmed away again.
pub proof fn lemma_trim_padded(s: Seq<char>, before: Seq<char>, after: Seq<char>)
    requires
        forall|j: int| 0 <= j < before.len() ==> is_space(before[j]),
        forall|j: int| 0 <= j < after.len() ==> is_space(after[j]),
    ensures
        trim(before + s + after) == trim(s),
    decreases before.len() + after.len(),
{
    let padded = before + s + after;
    if before.len() > 0 {
        assert(padded.drop_first() == before.drop_first() + s + after);
        lemma_trim_padded(s, before.drop_first(), after);
    } else if after.len() > 0 {
        assert(before + s == s);
        lemma_trim_padded(s, before, after.drop_last());
        let shorter = before + s + after.drop_last();
        assert(padded.drop_last() == shorter);
        // Both texts lose the same white space in front; what is left of the
        // longer one ends with the last character of `after`.
        let a = lemma_trim_start(padded);
        let a2 = lemma_trim_start(shorter);
        if a == padded.len() {
            assert(forall|j: int| 0 <= j < shorter.len() ==> shorter[j] == padded[j]);
            assert(a2 == shorter.len());
            assert(trim_start(padded).len() == 0);
            assert(trim_start(shorter).len() == 0);
            assert(trim_start(padded) == trim_start(shorter));
        } else {
            assert(a < shorter.len()) by {
                if a == padded.len() - 1 {
                    assert(padded[a] == after.last());
                }
            }
            assert(forall|j: int| 0 <= j < shorter.len() ==> shorter[j] == padded[j]);
            assert(a2 == a) by {
                if a2 < a {
                    assert(is_space(padded[a2]));
                }
                if a < a2 {
                    assert(is_space(shorter[a]));
                }
            }
            assert(trim_start(padded).last() == after.last());
            assert(trim_start(padded).drop_last() == trim_start(shorter));
        }
    } else {
        assert(padded == s);
    }
}

/// The character that stands for the digit `d`.
pub open spec fn digit(d: int) -> char {
    if d == 0 {
        '0'
    } else if d == 1 {
        '1'
    } else if d == 2 {
        '2'
    } else if d == 3 {
        '3'
    } else if d == 4 {
        '4'
    } else if d == 5 {
        '5'
    } else if d == 6 {
        '6'
    } else if d == 7 {
        '7'
    } else if d == 8 {
        '8'
    } else {
        '9'
    }
}

/// The decimal numeral of `n`, without leading zeros.
pub open spec fn decimal(n: nat) -> Seq<char>
    decreases n,
{
    if n < 10 {
        seq![digit(n as int)]
    } else {
        decimal(n / 10).push(digit((n % 10) as int))
    }
}

/// The decimal numeral of `i`, with a minus sign where `i` is negative.
pub open spec fn signed_decimal(i: int) -> Seq<char> {
    if i < 0 {
        seq!['-'] + decimal((-i) as nat)
    } else {
        decimal(i as nat)
    }
}

/// Whether `c` is one of `0` to `9`.
pub open spec fn is_digit(c: char) -> bool {
    0x30 <= c as u32 <= 0x39
}

/// The number that the digit `c` stands for.
pub open spec fn digit_value(c: char) -> int {
    c as u32 - 0x30
}

/// The number that a run of digits stands for.
pub open spec fn digits_value(s: Seq<char>) -> int
    decreases s.len(),
{
    if s.len() == 0 {
        0
    } else {
        digits_value(s.drop_last()) * 10 + digit_value(s.last())
    }
}

/// Whether `s` holds digits only.
pub open spec fn all_digits(s: Seq<char>) -> bool {
    forall|i: int| 0 <= i < s.len() ==> is_digit(#[trigger] s[i])
}

/// The number that `s` stands for: a run of one or more digits, which a `+`
/// may precede. Anything else stands for no number.
pub open spec fn parse_decimal(s: Seq<char>) -> Option<int> {
    let digits = if s.len() > 0 && s.first() == '+' {
        s.drop_first()
    } else {
        s
    };
    if digits.len() > 0 && all_digits(digits) {
        Some(digits_value(digits))
    } else {
        None
    }
}

/// The number that `s` stands for, where it stands for one that fits a
/// `usize`.
pub open spec fn decimal_usize(s: Seq<char>) -> Option<usize> {
    match parse_decimal(s) {
        Some(n) => if 0 <= n <= usize::MAX {
            Some(n as usize)
        } else {
            None
        },
        None => None,
    }
}

/// A run of digits stands for at least as much as any of its beginnings.
pub proof fn lemma_digits_value_grows(s: Seq<char>, k: int)
    requires
        all_digits(s),
        0 <= k <= s.len(),
    ensures
        0 <= digits_value(s.take(k)) <= digits_value(s),
    decreases s.len(),
{
    if k == s.len() {
        assert(s.take(k) == s);
        if s.len() > 0 {
            lemma_digits_value_grows(s.drop_last(), k - 1);
            assert(s.drop_last().take(k - 1) == s.drop_last());
        }
    } else {
        lemma_digits_value_grows(s.drop_last(), k);
        assert(s.drop_last().take(k) == s.take(k));
    }
}

/// The one-character text of the digit `d`.
pub fn digit_text(d: u64) -> (out: &'static str)
    requires
        d < 10,
    ensures
        out@ == seq![digit(d as int)],
{
    proof {
        reveal_strlit("0");
        reveal_strlit("1");
        reveal_strlit("2");
        reveal_strlit("3");
        reveal_strlit("4");
        reveal_strlit("5");
        reveal_strlit("6");
        reveal_strlit("7");
        reveal_strlit("8");
        reveal_strlit("9");
    }
    let out = if d == 0 {
        "0"
    } else if d == 1 {
        "1"
    } else if d == 2 {
        "2"
    } else if d == 3 {
        "3"
    } else if d == 4 {
        "4"
    } else if d == 5 {
        "5"
    } else if d == 6 {
        "6"
    } else if d == 7 {
        "7"
    } else if d == 8 {
        "8"
    } else {
        "9"
    };
    assert(out@ =~= seq![digit(d as int)]);
    out
}

/// Writes `n` as a decimal numeral.
pub fn decimal_of(n: u64) -> (out: String)
    ensures
        out@ == decimal(n as nat),
    decreases n,
{
    if n < 10 {
        digit_text(n).to_owned()
    } else {
        let mut out = decimal_of(n / 10);
        out.append(digit_text(n % 10));
        assert(out@ =~= decimal((n / 10) as nat).push(digit((n % 10) as int)));
        out
    }
}

/// Writes `i` as a decimal numeral, with a minus sign where it is negative.
pub fn signed_decimal_of(i: i32) -> (out: String)
    ensures
        out@ == signed_decimal(i as int),
{
    if i < 0 {
        let wide: i64 = i as i64;
        let magnitude: u64 = (-wide) as u64;
        let mut out = "-".to_owned();
        proof {
            reveal_strlit("-");
        }
        let digits = decimal_of(magnitude);
        out.append(digits.as_str());
        assert(out@ =~= seq!['-'] + decimal((-i) as nat));
        out
    } else {
        decimal_of(i as u64)
    }
}

/// Reads the range `lo..hi` of `chars` as a decimal numeral that fits a
/// `usize`.
pub fn parse_usize_in(chars: &Vec<char>, lo: usize, hi: usize) -> (r: Option<usize>)
    requires
        lo <= hi <= chars.len(),
    ensures
        r == decimal_usize(chars@.subrange(lo as int, hi as int)),
{
    let ghost text = chars@.subrange(lo as int, hi as int);
    let start: usize = if lo < hi && chars[lo] == '+' {
        lo + 1
    } else {
        lo
    };
    let ghost digits = chars@.subrange(start as int, hi as int);
    assert(digits == if text.len() > 0 && text.first() == '+' {
        text.drop_first()
    } else {
        text
    });
    if start == hi {
        return None;
    }
    let mut value: usize = 0;
    let mut k: usize = start;
    while k < hi
        invariant
            start <= k <= hi <= chars.len(),
            start < hi,
            digits == chars@.subrange(start as int, hi as int),
            parse_decimal(chars@.subrange(lo as int, hi as int)) == if all_digits(digits) {
                Some(digits_value(digits))
            } else {
                None
            },
            all_digits(digits.take(k - start)),
            value == digits_value(digits.take(k - start)),
        decreases hi - k,
    {
        let c = chars[k];
        let u: u32 = c as u32;
        let ghost seen = digits.take(k - start + 1);
        assert(seen.drop_last() == digits.take(k - start));
        assert(seen.last() == c);
        if u < 0x30 || u > 0x39 {
            assert(!is_digit(digits[k - start]));
            return None;
        }
        assert(all_digits(seen));
        let d: usize = (u - 0x30) as usize;
        let next = match value.checked_mul(10) {
            Some(tens) => tens.checked_add(d),
            None => None,
        };
        match next {
            Some(n) => {
                value = n;
            },
            None => {
                proof {
                    assert(digits_value(seen) > usize::MAX);
                    if all_digits(digits) {
                        lemma_digits_value_grows(digits, k - start + 1);
                    }
                }
                return None;
            },
        }
        k += 1;
    }
    assert(digits.take(hi - start) == digits);
    Some(value)
}

/// Reads `s` as a decimal numeral that fits a `usize`.
pub fn parse_usize(s: &str) -> (r: Option<usize>)
    ensures
        r == decimal_usize(s@),
{
    let chars = chars_of(s);
    assert(chars@.subrange(0, chars.len() as int) == chars@);
    parse_usize_in(&chars, 0, chars.len())
}

/// The path of `name` under the directory `base`: `name` itself where it
/// starts at the root, else `base` and `name` with one `/` between them
/// unless `base` is empty or ends with one.
pub open spec fn join(base: Seq<char>, name: Seq<char>) -> Seq<char> {
    if name.len() > 0 && name.first() == '/' {
        name
    } else if base.len() == 0 || base.last() == '/' {
        base + name
    } else {
        base + seq!['/'] + name
    }
}

/// Whether `name` is one component of a path, and one that names an entry:
/// not empty, neither `.` nor `..`, and without a `/`.
pub open spec fn is_component(name: Seq<char>) -> bool {
    &&& name.len() > 0
    &&& name != seq!['.']
    &&& name != seq!['.', '.']
    &&& forall|i: int| 0 <= i < name.len() ==> name[i] != '/'
}

/// Tells whether `name` is one component of a path that names an entry.
pub fn is_component_name(name: &str) -> (b: bool)
    ensures
        b == is_component(name@),
{
    let chars = chars_of(name);
    let n = chars.len();
    if n == 0 {
        return false;
    }
    if chars[0] == '.' && (n == 1 || (n == 2 && chars[1] == '.')) {
        assert(chars@ == seq!['.'] || chars@ == seq!['.', '.']);
        return false;
    }
    assert(chars@ != seq!['.'] && chars@ != seq!['.', '.']) by {
        if chars@ == seq!['.'] {
            assert(seq!['.'].len() == 1 && seq!['.'][0] == '.');
        }
        if chars@ == seq!['.', '.'] {
            assert(seq!['.', '.'].len() == 2 && seq!['.', '.'][0] == '.' && seq!['.', '.'][1]
                == '.');
        }
    }
    let mut k: usize = 0;
    while k < n
        invariant
            k <= n,
            n == chars.len(),
            chars@ == name@,
            name@ != seq!['.'] && name@ != seq!['.', '.'],
            forall|j: int| 0 <= j < k ==> chars@[j] != '/',
        decreases n - k,
    {
        if chars[k] == '/' {
            assert(name@[k as int] == '/');
            return false;
        }
        k += 1;
    }
    true
}

/// The path of an entry lies under its directory: it is the directory's
/// path, then a `/` unless that path is empty or ends with one, then the
/// entry's name.
pub proof fn lemma_join_component(base: Seq<char>, name: Seq<char>)
    requires
        is_component(name),
    ensures
        join(base, name) == if base.len() == 0 || base.last() == '/' {
            base + name
        } else {
            base + seq!['/'] + name
        },
{
}

/// Joins the path `name` to the directory `base`.
pub fn join_path(base: &str, name: &str) -> (out: String)
    ensures
        out@ == join(base@, name@),
{
    let first = chars_of(name);
    if first.len() > 0 && first[0] == '/' {
        return name.to_owned();
    }
    let head = chars_of(base);
    let mut out = base.to_owned();
    if head.len() > 0 && head[head.len() - 1] != '/' {
        proof {
            reveal_strlit("/");
        }
        out.append("/");
        assert(out@ =~= base@ + seq!['/']);
    }
    out.append(name);
    out
}

/// The text that `{:?}` writes for a string: the string between double
/// quotes, with the characters that need it escaped.
pub uninterp spec fn quoted(s: Seq<char>) -> Seq<char>;

/// Writes `s` between double quotes, escaped.
///
/// Formats `s` with `{:?}`, that is with `<str as core::fmt::Debug>::fmt`.
/// This is taken on trust: the contract gives the result its name and
/// claims no more of it than that it depends on `s` alone.
#[verifier::external_body]
pub(crate) fn quote(s: &str) -> (out: String)
    ensures
        out@ == quoted(s@),
{
    format!("{:?}", s)
}

/// Writes `tail` after `head`.
pub fn joined(head: &str, tail: &str) -> (out: String)
    ensures
        out@ == head@ + tail@,
{
    let mut out = head.to_owned();
    out.append(tail);
    out
}

/// The number of characters of `s` before its first `c`, or all of them
/// where it holds none.
pub open spec fn until(s: Seq<char>, c: char) -> int
    decreases s.len(),
{
    if s.len() == 0 || s.first() == c {
        0
    } else {
        1 + until(s.drop_first(), c)
    }
}

/// The parts of `s` between its separators: one more than it has
/// separators, each of them possibly empty.
pub open spec fn split(s: Seq<char>, sep: char) -> Seq<Seq<char>>
    decreases s.len(),
{
    let end = until(s, sep);
    if 0 <= end < s.len() {
        seq![s.take(end)] + split(s.skip(end + 1), sep)
    } else {
        seq![s]
    }
}

/// `line` without the carriage return at its end, if it has one.
pub open spec fn strip_return(line: Seq<char>) -> Seq<char> {
    if line.len() > 0 && line.last() == '\r' {
        line.drop_last()
    } else {
        line
    }
}

/// The lines of `text`. A line ends with a line feed, or with a carriage
/// return and a line feed; the last line may go without.
pub open spec fn lines(text: Seq<char>) -> Seq<Seq<char>>
    decreases text.len(),
{
    let end = until(text, '\n');
    if text.len() == 0 {
        Seq::empty()
    } else if 0 <= end < text.len() {
        seq![strip_return(text.take(end))] + lines(text.skip(end + 1))
    } else {
        seq![text]
    }
}

/// The ranges of `s` that `ranges` names, in order.
pub open spec fn cut(s: Seq<char>, ranges: Seq<(usize, usize)>) -> Seq<Seq<char>> {
    Seq::new(ranges.len(), |k: int| s.subrange(ranges[k].0 as int, ranges[k].1 as int))
}

/// Whether every range of `ranges` lies within `lo..hi`.
pub open spec fn all_within(ranges: Seq<(usize, usize)>, lo: int, hi: int) -> bool {
    forall|k: int| 0 <= k < ranges.len() ==> lo <= (#[trigger] ranges[k]).0 <= ranges[k].1 <= hi
}

/// The first `c` of `s`, if there is one, lies within `s`.
pub proof fn lemma_until_within(s: Seq<char>, c: char)
    ensures
        0 <= until(s, c) <= s.len(),
    decreases s.len(),
{
    if s.len() > 0 && s.first() != c {
        lemma_until_within(s.drop_first(), c);
    }
}

/// The first `c` of `s` is at `k` where none stands before `k` and one
/// stands at `k`, or `s` ends there.
pub proof fn lemma_until(s: Seq<char>, c: char, k: int)
    requires
        0 <= k <= s.len(),
        forall|j: int| 0 <= j < k ==> s[j] != c,
        k < s.len() ==> s[k] == c,
    ensures
        until(s, c) == k,
    decreases s.len(),
{
    if k > 0 {
        let rest = s.drop_first();
        assert forall|j: int| 0 <= j < k - 1 implies rest[j] != c by {
            assert(rest[j] == s[j + 1]);
        }
        lemma_until(rest, c, k - 1);
    }
}

/// Looks in the range `lo..hi` of `chars` for the first `c`; returns its
/// place, or `hi` where there is none.
pub fn scan_to(chars: &Vec<char>, lo: usize, hi: usize, c: char) -> (end: usize)
    requires
        lo <= hi <= chars.len(),
    ensures
        lo <= end <= hi,
        end - lo == until(chars@.subrange(lo as int, hi as int), c),
{
    let mut end: usize = lo;
    while end < hi && chars[end] != c
        invariant
            lo <= end <= hi <= chars.len(),
            forall|j: int| lo <= j < end ==> chars@[j] != c,
        decreases hi - end,
    {
        end += 1;
    }
    proof {
        lemma_until(chars@.subrange(lo as int, hi as int), c, end - lo);
    }
    end
}

/// Splits the range `lo..hi` of `chars` at every `sep`; returns the ranges
/// of the parts.
pub fn split_ranges(chars: &Vec<char>, lo: usize, hi: usize, sep: char) -> (ranges: Vec<
    (usize, usize),
>)
    requires
        lo <= hi <= chars.len(),
    ensures
        cut(chars@, ranges@) == split(chars@.subrange(lo as int, hi as int), sep),
        all_within(ranges@, lo as int, hi as int),
{
    let mut ranges: Vec<(usize, usize)> = Vec::new();
    let mut start: usize = lo;
    assert(cut(chars@, ranges@) == Seq::<Seq<char>>::empty());
    loop
        invariant_except_break
            cut(chars@, ranges@) + split(chars@.subrange(start as int, hi as int), sep) == split(
                chars@.subrange(lo as int, hi as int),
                sep,
            ),
        invariant
            lo <= start <= hi <= chars.len(),
            all_within(ranges@, lo as int, hi as int),
        ensures
            cut(chars@, ranges@) == split(chars@.subrange(lo as int, hi as int), sep),
            all_within(ranges@, lo as int, hi as int),
        decreases hi - start,
    {
        let ghost rest = chars@.subrange(start as int, hi as int);
        let ghost before = cut(chars@, ranges@);
        let end = scan_to(chars, start, hi, sep);
        ranges.push((start, end));
        proof {
            assert(rest.take(end - start) == chars@.subrange(start as int, end as int));
            assert(cut(chars@, ranges@) == before + seq![rest.take(end - start)]);
        }
        if end < hi {
            proof {
                assert(rest.skip(end - start + 1) == chars@.subrange(end + 1, hi as int));
                let tail = split(chars@.subrange(end + 1, hi as int), sep);
                assert(before + (seq![rest.take(end - start)] + tail) == (before + seq![
                    rest.take(end - start),
                ]) + tail);
            }
            start = end + 1;
        } else {
            assert(rest.take(end - start) == rest);
            break ;
        }
    }
    ranges
}

/// Cuts `chars` into lines; returns their ranges.
pub fn line_ranges(chars: &Vec<char>) -> (ranges: Vec<(usize, usize)>)
    ensures
        cut(chars@, ranges@) == lines(chars@),
        all_within(ranges@, 0, chars.len() as int),
{
    let n = chars.len();
    let mut ranges: Vec<(usize, usize)> = Vec::new();
    let mut start: usize = 0;
    assert(cut(chars@, ranges@) == Seq::<Seq<char>>::empty());
    assert(chars@.subrange(0, n as int) == chars@);
    while start < n
        invariant
            start <= n,
            n == chars.len(),
            all_within(ranges@, 0, n as int),
            cut(chars@, ranges@) + lines(chars@.subrange(start as int, n as int)) == lines(chars@),
        decreases n - start,
    {
        let ghost rest = chars@.subrange(start as int, n as int);
        let ghost before = cut(chars@, ranges@);
        let end = scan_to(chars, start, n, '\n');
        if end < n {
            let stop = if start < end && chars[end - 1] == '\r' {
                end - 1
            } else {
                end
            };
            ranges.push((start, stop));
            proof {
                let line = rest.take(end - start);
                assert(line == chars@.subrange(start as int, end as int));
                assert(strip_return(line) == chars@.subrange(start as int, stop as int));
                assert(cut(chars@, ranges@) == before + seq![strip_return(line)]);
                assert(rest.skip(end - start + 1) == chars@.subrange(end + 1, n as int));
                let tail = lines(chars@.subrange(end + 1, n as int));
                assert(before + (seq![strip_return(line)] + tail) == (before + seq![
                    strip_return(line),
                ]) + tail);
            }
            start = end + 1;
        } else {
            ranges.push((start, n));
            proof {
                assert(cut(chars@, ranges@) == before + seq![rest]);
                assert(chars@.subrange(n as int, n as int) == Seq::<char>::empty());
                assert(before + seq![rest] + Seq::<Seq<char>>::empty() == before + seq![rest]);
            }
            start = n;
        }
    }
    assert(chars@.subrange(n as int, n as int) == Seq::<char>::empty());
    assert(cut(chars@, ranges@) + Seq::<Seq<char>>::empty() == cut(chars@, ranges@));
    ranges
}

/// Tells whether the range `lo..hi` of `chars` holds the characters of
/// `other`.
pub fn range_equals(chars: &Vec<char>, lo: usize, hi: usize, other: &Vec<char>) -> (b: bool)
    requires
        lo <= hi <= chars.len(),
    ensures
        b == (chars@.subrange(lo as int, hi as int) == other@),
{
    if hi - lo != other.len() {
        return false;
    }
    let found = matches_here(chars, other, lo, hi);
    assert(chars@.subrange(0, hi as int).subrange(lo as int, lo + other.len())
        == chars@.subrange(lo as int, hi as int));
    found
}

} // verus!
