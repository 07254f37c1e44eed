//! Text primitives: comparison, trimming, splitting and decimal numbers, each
//! stated over the sequence of characters of a string.

use vstd::prelude::*;
use vstd::string::*;

verus! {

/// The characters with Unicode's `White_Space` property.
pub open spec fn is_white_space(c: char) -> bool {
    let n = c as int;
    ||| 0x09 <= n <= 0x0d
    ||| n == 0x20
    ||| n == 0x85
    ||| n == 0xa0
    ||| n == 0x1680
    ||| 0x2000 <= n <= 0x200a
    ||| n == 0x2028
    ||| n == 0x2029
    ||| n == 0x202f
    ||| n == 0x205f
    ||| n == 0x3000
}

/// `s` without its leading white space.
pub open spec fn trimmed_start(s: Seq<char>) -> Seq<char>
    decreases s.len(),
{
    if s.len() > 0 && is_white_space(s[0]) {
        trimmed_start(s.drop_first())
    } else {
        s
    }
}

/// `s` without its trailing white space.
pub open spec fn trimmed_end(s: Seq<char>) -> Seq<char>
    decreases s.len(),
{
    if s.len() > 0 && is_white_space(s.last()) {
        trimmed_end(s.drop_last())
    } else {
        s
    }
}

/// `s` without white space at either end.
pub open spec fn trimmed(s: Seq<char>) -> Seq<char> {
    trimmed_end(trimmed_start(s))
}

/// `s` without the copies of `c` at its end.
pub open spec fn without_trailing(s: Seq<char>, c: char) -> Seq<char>
    decreases s.len(),
{
    if s.len() > 0 && s.last() == c {
        without_trailing(s.drop_last(), c)
    } else {
        s
    }
}

/// Where `c` first stands in `s`, or the length of `s` where it does not.
pub open spec fn cut_at(s: Seq<char>, c: char) -> nat
    decreases s.len(),
{
    if s.len() == 0 || s[0] == c {
        0
    } else {
        1 + cut_at(s.drop_first(), c)
    }
}

/// The items of a comma-separated list: trimmed, in order, blanks dropped.
pub open spec fn list_items(s: Seq<char>) -> Seq<Seq<char>>
    decreases s.len(),
{
    let cut = cut_at(s, ',');
    if cut < s.len() {
        blank_or_item(s.take(cut as int)) + list_items(s.skip(cut as int + 1))
    } else {
        blank_or_item(s)
    }
}

/// The list that one stretch between commas contributes.
pub open spec fn blank_or_item(s: Seq<char>) -> Seq<Seq<char>> {
    if trimmed(s).len() == 0 {
        Seq::empty()
    } else {
        seq![trimmed(s)]
    }
}

/// Whether `c` is an ASCII decimal digit.
pub open spec fn is_digit(c: char) -> bool {
    '0' as int <= c as int <= '9' as int
}

/// Whether `s` is one or more decimal digits.
pub open spec fn is_digits(s: Seq<char>) -> bool {
    s.len() > 0 && forall|i: int| 0 <= i < s.len() ==> #[trigger] is_digit(s[i])
}

/// The number that the decimal digits of `s` write.
pub open spec fn digits_value(s: Seq<char>) -> nat
    decreases s.len(),
{
    if s.len() == 0 {
        0
    } else {
        (10 * digits_value(s.drop_last()) + (s.last() as int - '0' as int)) as nat
    }
}

/// The number that `s` writes in decimal, with at most a plus sign in front.
pub open spec fn unsigned_value(s: Seq<char>) -> Option<nat> {
    if is_digits(s) {
        Some(digits_value(s))
    } else if s.len() > 0 && s[0] == '+' && is_digits(s.drop_first()) {
        Some(digits_value(s.drop_first()))
    } else {
        None
    }
}

/// The integer that `s` writes in decimal, with at most one sign in front.
pub open spec fn signed_value(s: Seq<char>) -> Option<int> {
    if s.len() > 0 && s[0] == '-' && is_digits(s.drop_first()) {
        Some(-digits_value(s.drop_first()))
    } else {
        match unsigned_value(s) {
            Some(n) => Some(n as int),
            None => None,
        }
    }
}

/// The `i64` that `s` writes in decimal.
pub open spec fn parsed_i64(s: Seq<char>) -> Option<i64> {
    match signed_value(s) {
        Some(n) => if i64::MIN <= n <= i64::MAX {
            Some(n as i64)
        } else {
            None
        },
        None => None,
    }
}

/// The `u32` that `s` writes in decimal.
pub open spec fn parsed_u32(s: Seq<char>) -> Option<u32> {
    match unsigned_value(s) {
        Some(n) => if n <= u32::MAX {
            Some(n as u32)
        } else {
            None
        },
        None => None,
    }
}

/// The decimal digits of `n`, without leading zeros.
pub open spec fn decimal(n: nat) -> Seq<char>
    decreases n,
{
    if n < 10 {
        seq![digit_char(n)]
    } else {
        decimal(n / 10).push(digit_char(n % 10))
    }
}

/// The digit that writes `d`.
pub open spec fn digit_char(d: nat) -> char {
    ('0' as int + d) as char
}

/// The characters of `s`.
pub fn chars_of(s: &str) -> (r: Vec<char>)
    ensures
        r@ == s@,
{
    let mut out: Vec<char> = Vec::new();
    for c in rest: s.chars()
        invariant
            rest.seq() == s@,
            out@ == s@.take(rest.index()),
    {
        out.push(c);
        assert(s@.take(rest.index()).push(c) =~= s@.take(rest.index() + 1));
    }
    assert(s@.take(s@.len() as int) =~= s@);
    out
}

/// Whether two strings hold the same characters.
pub fn same_text(a: &str, b: &str) -> (r: bool)
    ensures
        r == (a@ == b@),
{
    let x: String = a.to_string();
    let y: String = b.to_string();
    x == y
}

/// Whether `s` begins with `prefix`.
pub fn starts_with(s: &str, prefix: &str) -> (r: bool)
    ensures
        r == prefix@.is_prefix_of(s@),
{
    let n: usize = prefix.unicode_len();
    if s.unicode_len() < n {
        return false;
    }
    let head: &str = s.substring_char(0, n);
    let r: bool = same_text(head, prefix);
    proof {
        assert(s@.subrange(0, n as int) =~= s@.take(n as int));
        if r {
            assert(prefix@ =~= s@.subrange(0, prefix@.len() as int));
        } else if prefix@.is_prefix_of(s@) {
            assert(prefix@ =~= s@.take(n as int));
        }
    }
    r
}

/// Whether `c` has Unicode's `White_Space` property.
pub fn white_space(c: char) -> (r: bool)
    ensures
        r == is_white_space(c),
{
    let n: u32 = c as u32;
    (0x09 <= n && n <= 0x0d) || n == 0x20 || n == 0x85 || n == 0xa0 || n == 0x1680 || (0x2000 <= n
        && n <= 0x200a) || n == 0x2028 || n == 0x2029 || n == 0x202f || n == 0x205f || n == 0x3000
}

/// `s` without white space at either end.
pub fn trim(s: &str) -> (r: &str)
    ensures
        r@ == trimmed(s@),
{
    let chars: Vec<char> = chars_of(s);
    let n: usize = chars.len();
    let mut from: usize = 0;
    proof {
        assert(s@.skip(0) =~= s@);
    }
    while from < n && white_space(chars[from])
        invariant
            n == chars@.len(),
            chars@ == s@,
            from <= n,
            trimmed_start(s@) == trimmed_start(s@.skip(from as int)),
        decreases n - from,
    {
        proof {
            assert(s@.skip(from as int).drop_first() =~= s@.skip(from + 1));
        }
        from = from + 1;
    }
    let mut to: usize = n;
    proof {
        assert(s@.subrange(from as int, n as int) =~= s@.skip(from as int));
    }
    while from < to && white_space(chars[to - 1])
        invariant
            n == chars@.len(),
            chars@ == s@,
            from <= to <= n,
            trimmed(s@) == trimmed_end(s@.subrange(from as int, to as int)),
        decreases to,
    {
        proof {
            assert(s@.subrange(from as int, to as int).drop_last() =~= s@.subrange(
                from as int,
                to - 1,
            ));
        }
        to = to - 1;
    }
    proof {
        if from < to {
            assert(s@.subrange(from as int, to as int).last() == s@[to - 1]);
        }
    }
    s.substring_char(from, to)
}

/// `s` without the copies of `c` at its end.
pub fn trim_end_matches(s: &str, c: char) -> (r: &str)
    ensures
        r@ == without_trailing(s@, c),
{
    let chars: Vec<char> = chars_of(s);
    let mut to: usize = chars.len();
    proof {
        assert(s@.take(to as int) =~= s@);
    }
    while to > 0 && chars[to - 1] == c
        invariant
            chars@ == s@,
            to <= chars@.len(),
            without_trailing(s@, c) == without_trailing(s@.take(to as int), c),
        decreases to,
    {
        proof {
            assert(s@.take(to as int).drop_last() =~= s@.take(to - 1));
        }
        to = to - 1;
    }
    proof {
        assert(s@.take(to as int) =~= s@.subrange(0, to as int));
    }
    s.substring_char(0, to)
}

/// Where `c` first stands in `s`.
pub proof fn lemma_cut_at(s: Seq<char>, c: char, i: int)
    requires
        0 <= i <= s.len(),
        forall|k: int| 0 <= k < i ==> s[k] != c,
        i < s.len() ==> s[i] == c,
    ensures
        cut_at(s, c) == i,
    decreases i,
{
    if i > 0 {
        assert forall|k: int| 0 <= k < i - 1 implies s.drop_first()[k] != c by {
            assert(s.drop_first()[k] == s[k + 1]);
        }
        lemma_cut_at(s.drop_first(), c, i - 1);
    }
}

/// Where `c` first stands in `chars` from `from` on, or the end of `chars`.
fn find_from(chars: &Vec<char>, from: usize, c: char) -> (r: usize)
    requires
        from <= chars@.len(),
    ensures
        from <= r <= chars@.len(),
        r - from == cut_at(chars@.skip(from as int), c),
{
    let mut at: usize = from;
    while at < chars.len() && chars[at] != c
        invariant
            from <= at <= chars@.len(),
            forall|k: int| from <= k < at ==> chars@[k] != c,
        decreases chars@.len() - at,
    {
        at = at + 1;
    }
    proof {
        lemma_cut_at(chars@.skip(from as int), c, at - from);
    }
    at
}

/// Where `c` first stands in `s`, or the length of `s`.
pub fn find(s: &str, c: char) -> (r: usize)
    ensures
        r == cut_at(s@, c),
        r <= s@.len(),
{
    let chars: Vec<char> = chars_of(s);
    assert(s@.skip(0) =~= s@);
    find_from(&chars, 0, c)
}

/// The items of a comma-separated list: trimmed, in order, blanks dropped.
pub fn split_list(s: &str) -> (r: Vec<String>)
    ensures
        r.deep_view() == list_items(s@),
{
    let chars: Vec<char> = chars_of(s);
    let n: usize = chars.len();
    let mut out: Vec<String> = Vec::new();
    let mut from: usize = 0;
    proof {
        assert(s@.skip(0) =~= s@);
        assert(out.deep_view() =~= Seq::<Seq<char>>::empty());
    }
    loop
        invariant_except_break
            n == chars@.len(),
            chars@ == s@,
            from <= n,
            list_items(s@) == out.deep_view() + list_items(s@.skip(from as int)),
        ensures
            list_items(s@) == out.deep_view(),
        decreases n - from,
    {
        let cut: usize = find_from(&chars, from, ',');
        let item: String = trim(s.substring_char(from, cut)).to_string();
        let ghost before = out.deep_view();
        let ghost stretch = s@.subrange(from as int, cut as int);
        proof {
            assert(stretch =~= s@.skip(from as int).take(cut - from));
        }
        if !item.as_str().is_empty() {
            out.push(item);
            assert(out.deep_view() =~= before + seq![item@]);
        }
        assert(out.deep_view() =~= before + blank_or_item(stretch));
        if cut == n {
            proof {
                assert(stretch =~= s@.skip(from as int));
            }
            break;
        }
        proof {
            assert(s@.skip(from as int).skip(cut - from + 1) =~= s@.skip(cut + 1));
            assert(list_items(s@) =~= before + (blank_or_item(stretch) + list_items(
                s@.skip(cut + 1),
            )));
        }
        from = cut + 1;
    }
    out
}

proof fn lemma_digits_grow(s: Seq<char>, k: int)
    requires
        is_digits(s),
        0 <= k <= s.len(),
    ensures
        digits_value(s.take(k)) <= digits_value(s),
    decreases s.len() - k,
{
    if k < s.len() {
        lemma_digits_grow(s, k + 1);
        assert(s.take(k + 1).drop_last() =~= s.take(k));
        assert(is_digit(s[k]));
    } else {
        assert(s.take(k) =~= s);
    }
}

/// The number that the digit `c` writes.
fn digit(c: char) -> (r: Option<u64>)
    ensures
        r is Some <==> is_digit(c),
        r matches Some(d) ==> d == c as int - '0' as int && d < 10,
{
    let n: u32 = c as u32;
    if 0x30 <= n && n <= 0x39 {
        Some((n - 0x30) as u64)
    } else {
        None
    }
}

/// The value of the digits of `chars` from `from` on, where they are digits
/// and it is at most `high`.
fn parse_digits(chars: &Vec<char>, from: usize, high: u64) -> (r: Option<u64>)
    requires
        from <= chars@.len(),
        high <= i64::MAX as u64 + 1,
    ensures
        r matches Some(n) ==> is_digits(chars@.skip(from as int)) && n == digits_value(
            chars@.skip(from as int),
        ) && n <= high,
        r is None ==> !is_digits(chars@.skip(from as int)) || digits_value(
            chars@.skip(from as int),
        ) > high,
{
    let ghost s = chars@.skip(from as int);
    let n: usize = chars.len();
    if from == n {
        return None;
    }
    let mut value: u64 = 0;
    let mut at: usize = from;
    while at < n
        invariant
            n == chars@.len(),
            from <= at <= n,
            from < n,
            s == chars@.skip(from as int),
            high <= i64::MAX as u64 + 1,
            value <= high,
            value == digits_value(s.take(at - from)),
            forall|i: int| 0 <= i < at - from ==> #[trigger] is_digit(s[i]),
        decreases n - at,
    {
        proof {
            assert(s[at - from] == chars@[at as int]);
            assert(s.take(at - from + 1).drop_last() =~= s.take(at - from));
        }
        let d: u64 = match digit(chars[at]) {
            Some(d) => d,
            None => {
                assert(!is_digit(s[at - from]));
                return None;
            },
        };
        assert(is_digit(s[at - from]));
        assert(digits_value(s.take(at - from + 1)) == 10 * value + d);
        if d > high || value > (high - d) / 10 {
            proof {
                assert(10 * value + d > high);
                if is_digits(s) {
                    lemma_digits_grow(s, at - from + 1);
                }
            }
            return None;
        }
        value = value * 10 + d;
        at = at + 1;
    }
    assert(s.take(n - from) =~= s);
    Some(value)
}

/// Reads a decimal integer: an optional sign and at least one digit, within
/// the range of `i64`.
pub fn parse_i64(s: &str) -> (r: Option<i64>)
    ensures
        r == parsed_i64(s@),
{
    let chars: Vec<char> = chars_of(s);
    if chars.len() == 0 {
        return None;
    }
    proof {
        assert(s@.skip(0) =~= s@);
        assert(s@.skip(1) =~= s@.drop_first());
        if is_digits(s@) {
            assert(is_digit(s@[0]));
        }
    }
    if chars[0] == '-' {
        match parse_digits(&chars, 1, 0x8000_0000_0000_0000) {
            Some(n) => if n == 0x8000_0000_0000_0000 {
                Some(i64::MIN)
            } else {
                Some(-(n as i64))
            },
            None => None,
        }
    } else {
        let from: usize = if chars[0] == '+' {
            1
        } else {
            0
        };
        match parse_digits(&chars, from, 0x7fff_ffff_ffff_ffff) {
            Some(n) => Some(n as i64),
            None => None,
        }
    }
}

/// Reads an unsigned decimal integer: an optional plus sign and at least one
/// digit, within the range of `u32`.
pub fn parse_u32(s: &str) -> (r: Option<u32>)
    ensures
        r == parsed_u32(s@),
{
    let chars: Vec<char> = chars_of(s);
    if chars.len() == 0 {
        return None;
    }
    proof {
        assert(s@.skip(0) =~= s@);
        assert(s@.skip(1) =~= s@.drop_first());
        if is_digits(s@) {
            assert(is_digit(s@[0]));
        }
    }
    let from: usize = if chars[0] == '+' {
        1
    } else {
        0
    };
    match parse_digits(&chars, from, 0xffff_ffff) {
        Some(n) => Some(n as u32),
        None => None,
    }
}

fn digit_text(d: u64) -> (r: &'static str)
    requires
        d < 10,
    ensures
        r@ == seq![digit_char(d as nat)],
{
    proof {
        reveal_strlit("0");
        reveal_strlit("1");
        reveal_strlit("2");
        reveal_strlit("3");
        reveal_strlit("4");
        reveal_strlit("5");
        reveal_strlit("6");
        reveal_strlit("7");
        reveal_strlit("8");
        reveal_strlit("9");
    }
    let r: &'static str = match d {
        0 => "0",
        1 => "1",
        2 => "2",
        3 => "3",
        4 => "4",
        5 => "5",
        6 => "6",
        7 => "7",
        8 => "8",
        _ => "9",
    };
    assert(r@ =~= seq![digit_char(d as nat)]);
    r
}

/// `n` in decimal, without leading zeros.
pub fn decimal_text(n: u64) -> (r: String)
    ensures
        r@ == decimal(n as nat),
    decreases n,
{
    if n < 10 {
        digit_text(n).to_string()
    } else {
        let mut text: String = decimal_text(n / 10);
        text.append(digit_text(n % 10));
        assert(text@ =~= decimal(n as nat / 10).push(digit_char(n as nat % 10)));
        text
    }
}

proof fn lemma_trimmed_start(s: Seq<char>)
    ensures
        trimmed_start(s).len() <= s.len(),
        trimmed_start(s) == s.skip(s.len() - trimmed_start(s).len()),
        trimmed_start(s).len() > 0 ==> !is_white_space(trimmed_start(s)[0]),
    decreases s.len(),
{
    if s.len() > 0 && is_white_space(s[0]) {
        let rest = s.drop_first();
        lemma_trimmed_start(rest);
        assert(rest.skip(rest.len() - trimmed_start(s).len()) =~= s.skip(
            s.len() - trimmed_start(s).len(),
        ));
    } else {
        assert(s.skip(0) =~= s);
    }
}

proof fn lemma_trimmed_end(s: Seq<char>)
    ensures
        trimmed_end(s).len() <= s.len(),
        trimmed_end(s) == s.take(trimmed_end(s).len() as int),
        trimmed_end(s).len() > 0 ==> !is_white_space(trimmed_end(s).last()),
    decreases s.len(),
{
    if s.len() > 0 && is_white_space(s.last()) {
        let rest = s.drop_last();
        lemma_trimmed_end(rest);
        assert(rest.take(trimmed_end(s).len() as int) =~= s.take(trimmed_end(s).len() as int));
    } else {
        assert(s.take(s.len() as int) =~= s);
    }
}

/// Trimmed text is a stretch of the text, and has no white space at its ends:
/// to trim it again changes nothing.
pub proof fn law_trimmed(s: Seq<char>)
    ensures
        trimmed(trimmed(s)) == trimmed(s),
        trimmed(s).len() > 0 ==> !is_white_space(trimmed(s)[0]) && !is_white_space(trimmed(s).last()),
        exists|from: int|
            0 <= from <= from + trimmed(s).len() <= s.len() && trimmed(s) == #[trigger] s.skip(
                from,
            ).take(trimmed(s).len() as int),
{
    lemma_trimmed_start(s);
    let start = trimmed_start(s);
    lemma_trimmed_end(start);
    let from = s.len() - start.len();
    assert(trimmed(s) == s.skip(from).take(trimmed(s).len() as int));
    if trimmed(s).len() > 0 {
        assert(trimmed(s)[0] == start[0]);
    }
}

/// What is left has no copy of `c` at its end, and is the text with copies of
/// `c` taken off.
pub proof fn law_without_trailing(s: Seq<char>, c: char)
    ensures
        without_trailing(s, c).len() > 0 ==> without_trailing(s, c).last() != c,
        without_trailing(s, c).is_prefix_of(s),
        forall|i: int| without_trailing(s, c).len() <= i < s.len() ==> s[i] == c,
    decreases s.len(),
{
    if s.len() > 0 && s.last() == c {
        law_without_trailing(s.drop_last(), c);
        let kept = without_trailing(s, c);
        assert(kept =~= s.subrange(0, kept.len() as int));
        assert forall|i: int| kept.len() <= i < s.len() implies s[i] == c by {
            if i < s.len() - 1 {
                assert(s.drop_last()[i] == c);
            }
        }
    } else {
        assert(s.subrange(0, s.len() as int) =~= s);
    }
}

proof fn lemma_before_cut(s: Seq<char>, c: char)
    ensures
        cut_at(s, c) <= s.len(),
        forall|i: int| 0 <= i < cut_at(s, c) ==> s[i] != c,
        cut_at(s, c) < s.len() ==> s[cut_at(s, c) as int] == c,
    decreases s.len(),
{
    if s.len() > 0 && s[0] != c {
        lemma_before_cut(s.drop_first(), c);
        assert forall|i: int| 0 <= i < cut_at(s, c) implies s[i] != c by {
            if i > 0 {
                assert(s[i] == s.drop_first()[i - 1]);
            }
        }
    }
}

/// Every item of a list is trimmed, not blank, and holds no comma.
pub proof fn law_list_items(s: Seq<char>, i: int)
    requires
        0 <= i < list_items(s).len(),
    ensures
        list_items(s)[i].len() > 0,
        trimmed(list_items(s)[i]) == list_items(s)[i],
        !list_items(s)[i].contains(','),
    decreases s.len(),
{
    lemma_before_cut(s, ',');
    let cut = cut_at(s, ',') as int;
    let head = if cut < s.len() {
        s.take(cut)
    } else {
        s
    };
    if i < blank_or_item(head).len() {
        law_trimmed(head);
        let from = choose|from: int|
            0 <= from <= from + trimmed(head).len() <= head.len() && trimmed(head)
                == #[trigger] head.skip(from).take(trimmed(head).len() as int);
        assert forall|k: int| 0 <= k < trimmed(head).len() implies trimmed(head)[k] != ',' by {
            assert(trimmed(head)[k] == s[from + k]);
        }
    } else {
        assert(cut < s.len());
        law_list_items(s.skip(cut + 1), i - blank_or_item(head).len());
    }
}

/// A number in decimal reads back.
pub proof fn law_decimal(n: nat)
    ensures
        is_digits(decimal(n)),
        digits_value(decimal(n)) == n,
    decreases n,
{
    assert(digit_char(n % 10) as int == '0' as int + n % 10);
    if n < 10 {
        assert(decimal(n).drop_last() =~= Seq::empty());
        assert(digits_value(decimal(n).drop_last()) == 0);
    } else {
        law_decimal(n / 10);
        assert(decimal(n).last() == digit_char(n % 10));
        assert(decimal(n).drop_last() =~= decimal(n / 10));
        assert forall|i: int| 0 <= i < decimal(n).len() implies #[trigger] is_digit(
            decimal(n)[i],
        ) by {
            if i < decimal(n / 10).len() {
                assert(is_digit(decimal(n / 10)[i]));
            }
        }
    }
}

/// Items with commas between them.
pub open spec fn comma_list(items: Seq<Seq<char>>) -> Seq<char>
    decreases items.len(),
{
    if items.len() == 0 {
        Seq::empty()
    } else if items.len() == 1 {
        items[0]
    } else {
        items[0].push(',') + comma_list(items.drop_first())
    }
}

/// Items that are trimmed, not blank and without commas read back from a list.
pub proof fn law_comma_list(items: Seq<Seq<char>>)
    requires
        forall|i: int|
            0 <= i < items.len() ==> (#[trigger] items[i]).len() > 0 && trimmed(items[i]) == items[i]
                && !items[i].contains(','),
    ensures
        list_items(comma_list(items)) == items,
    decreases items.len(),
{
    let s = comma_list(items);
    if items.len() == 0 {
        assert(trimmed(s).len() == 0);
        assert(list_items(s) =~= items);
    } else if items.len() == 1 {
        lemma_cut_at(s, ',', s.len() as int);
        assert(list_items(s) =~= items);
    } else {
        let head = items[0];
        let rest = comma_list(items.drop_first());
        assert forall|k: int| 0 <= k < head.len() implies s[k] != ',' by {
            assert(s[k] == head[k]);
        }
        lemma_cut_at(s, ',', head.len() as int);
        assert(s.take(head.len() as int) =~= head);
        assert(s.skip(head.len() as int + 1) =~= rest);
        assert forall|i: int| 0 <= i < items.drop_first().len() implies (
        #[trigger] items.drop_first()[i]).len() > 0 && trimmed(items.drop_first()[i])
            == items.drop_first()[i] && !items.drop_first()[i].contains(',') by {
            assert(items.drop_first()[i] == items[i + 1]);
        }
        law_comma_list(items.drop_first());
        assert(list_items(s) =~= items);
    }
}

proof fn lemma_lead(lead: Seq<char>, rest: Seq<char>)
    requires
        forall|i: int| 0 <= i < lead.len() ==> is_white_space(#[trigger] lead[i]),
    ensures
        trimmed_start(lead + rest) == trimmed_start(rest),
    decreases lead.len(),
{
    if lead.len() == 0 {
        assert(lead + rest =~= rest);
    } else {
        let fewer = lead.drop_first();
        assert forall|i: int| 0 <= i < fewer.len() implies is_white_space(#[trigger] fewer[i]) by {
            assert(fewer[i] == lead[i + 1]);
        }
        lemma_lead(fewer, rest);
        assert(is_white_space(lead[0]));
        assert((lead + rest).drop_first() =~= fewer + rest);
    }
}

proof fn lemma_tail(rest: Seq<char>, tail: Seq<char>)
    requires
        forall|i: int| 0 <= i < tail.len() ==> is_white_space(#[trigger] tail[i]),
    ensures
        trimmed_end(rest + tail) == trimmed_end(rest),
    decreases tail.len(),
{
    if tail.len() == 0 {
        assert(rest + tail =~= rest);
    } else {
        let fewer = tail.drop_last();
        assert forall|i: int| 0 <= i < fewer.len() implies is_white_space(#[trigger] fewer[i]) by {
            assert(fewer[i] == tail[i]);
        }
        lemma_tail(rest, fewer);
        assert(is_white_space(tail[tail.len() - 1]));
        assert((rest + tail).drop_last() =~= rest + fewer);
    }
}

/// To trim takes white space off both ends, all of it and nothing else.
pub proof fn law_trimming(lead: Seq<char>, middle: Seq<char>, tail: Seq<char>)
    requires
        forall|i: int| 0 <= i < lead.len() ==> is_white_space(#[trigger] lead[i]),
        forall|i: int| 0 <= i < tail.len() ==> is_white_space(#[trigger] tail[i]),
        middle.len() > 0 ==> !is_white_space(middle[0]) && !is_white_space(middle.last()),
    ensures
        trimmed(lead + middle + tail) == middle,
{
    assert(lead + middle + tail =~= lead + (middle + tail));
    lemma_lead(lead, middle + tail);
    lemma_tail(middle, tail);
    if middle.len() > 0 {
        assert((middle + tail)[0] == middle[0]);
        assert(trimmed_start(middle + tail) == middle + tail);
    } else {
        assert(middle + tail =~= tail + middle);
        lemma_lead(tail, middle);
        assert(middle =~= Seq::empty());
    }
}

/// White space is the space, the tab, the line feed and their like; letters,
/// digits and ASCII punctuation are not.
pub proof fn law_white_space(c: char)
    ensures
        c == ' ' || c == '\t' || c == '\n' || c == '\r' ==> is_white_space(c),
        0x21 <= c as int <= 0x7e ==> !is_white_space(c),
{
}

/// The items on both sides of a comma are the items of the list.
pub proof fn law_list_split(a: Seq<char>, b: Seq<char>)
    ensures
        list_items(a.push(',') + b) == list_items(a) + list_items(b),
    decreases a.len(),
{
    let s = a.push(',') + b;
    lemma_before_cut(a, ',');
    let cut = cut_at(a, ',') as int;
    assert forall|i: int| 0 <= i < cut implies s[i] != ',' by {
        assert(s[i] == a[i]);
    }
    lemma_cut_at(s, ',', cut);
    if cut == a.len() {
        assert(s.take(cut) =~= a);
        assert(s.skip(cut + 1) =~= b);
    } else {
        let rest = a.skip(cut + 1);
        assert(s.take(cut) =~= a.take(cut));
        assert(s.skip(cut + 1) =~= rest.push(',') + b);
        law_list_split(rest, b);
        assert(list_items(s) =~= list_items(a) + list_items(b));
    }
}

/// A list without a comma is one item, trimmed, or none where it is blank.
pub proof fn law_list_of_one(s: Seq<char>)
    requires
        !s.contains(','),
    ensures
        trimmed(s).len() > 0 ==> list_items(s) == seq![trimmed(s)],
        trimmed(s).len() == 0 ==> list_items(s).len() == 0,
{
    lemma_cut_at(s, ',', s.len() as int);
}

/// Digits are the ten characters from `0` to `9`, and one more digit behind a
/// number makes it ten times as large, and as much larger as the digit says.
pub proof fn law_digits(s: Seq<char>, c: char)
    ensures
        is_digits(s) <==> s.len() > 0 && forall|i: int|
            0 <= i < s.len() ==> '0' as int <= (#[trigger] s[i]) as int <= '9' as int,
        digits_value(Seq::empty()) == 0,
        '0' as int <= c as int <= '9' as int ==> digits_value(s.push(c)) == 10 * digits_value(s)
            + (c as int - '0' as int),
{
    assert(s.push(c).drop_last() =~= s);
    if is_digits(s) {
        assert forall|i: int| 0 <= i < s.len() implies '0' as int <= (#[trigger] s[i]) as int
            <= '9' as int by {
            assert(is_digit(s[i]));
        }
    }
    if s.len() > 0 && forall|i: int|
        0 <= i < s.len() ==> '0' as int <= (#[trigger] s[i]) as int <= '9' as int {
        assert forall|i: int| 0 <= i < s.len() implies #[trigger] is_digit(s[i]) by {
            assert('0' as int <= s[i] as int);
        }
    }
}

/// A number reads as its digits say, with or without a sign, where it is in
/// range.
pub proof fn law_signed_numbers(digits: Seq<char>)
    requires
        is_digits(digits),
    ensures
        digits_value(digits) <= i64::MAX ==> parsed_i64(digits) == Some(digits_value(digits) as i64)
            && parsed_i64(seq!['+'] + digits) == Some(digits_value(digits) as i64),
        digits_value(digits) > i64::MAX ==> parsed_i64(digits) is None && parsed_i64(
            seq!['+'] + digits,
        ) is None,
        digits_value(digits) <= i64::MAX + 1 ==> parsed_i64(seq!['-'] + digits) == Some(
            (0 - digits_value(digits)) as i64,
        ),
        digits_value(digits) > i64::MAX + 1 ==> parsed_i64(seq!['-'] + digits) is None,
        digits_value(digits) <= u32::MAX ==> parsed_u32(digits) == Some(digits_value(digits) as u32)
            && parsed_u32(seq!['+'] + digits) == Some(digits_value(digits) as u32),
        digits_value(digits) > u32::MAX ==> parsed_u32(digits) is None && parsed_u32(
            seq!['+'] + digits,
        ) is None,
        parsed_u32(seq!['-'] + digits) is None,
{
    let plus = seq!['+'] + digits;
    let minus = seq!['-'] + digits;
    assert(plus.drop_first() =~= digits);
    assert(minus.drop_first() =~= digits);
    assert(is_digit(digits[0]));
    assert(plus[0] == '+' && minus[0] == '-');
    assert(!is_digit(plus[0]) && !is_digit(minus[0]));
    assert(!is_digits(plus) && !is_digits(minus));
}

/// What is not digits, after one sign at most, is no number.
pub proof fn law_no_number(s: Seq<char>)
    requires
        !is_digits(s),
        s.len() > 0 && (s[0] == '+' || s[0] == '-') ==> !is_digits(s.drop_first()),
    ensures
        parsed_i64(s) is None,
        parsed_u32(s) is None,
{
}

/// A number in decimal has no zero in front, unless it is zero.
pub proof fn law_no_leading_zero(n: nat)
    ensures
        decimal(n)[0] == '0' <==> n == 0,
        decimal(0).len() == 1,
    decreases n,
{
    if n >= 10 {
        law_no_leading_zero(n / 10);
        law_decimal(n / 10);
        assert(decimal(n)[0] == decimal(n / 10)[0]);
    } else {
        assert(digit_char(n) as int == '0' as int + n);
    }
}

} // verus!
