//! Character-level helpers: decimal numbers, ASCII case folding and splitting.
use vstd::prelude::*;

verus! {

/// An ASCII decimal digit.
pub open spec fn is_ascii_digit(c: char) -> bool {
    '0' <= c <= '9'
}

/// The numeric value of an ASCII decimal digit.
pub open spec fn digit_value(c: char) -> nat {
    ((c as u32) - ('0' as u32)) as nat
}

pub open spec fn all_digits(s: Seq<char>) -> bool {
    forall|i: int| 0 <= i < s.len() ==> #[trigger] is_ascii_digit(s[i])
}

/// The value of a sequence of decimal digits, most significant first.
pub open spec fn decimal_value(s: Seq<char>) -> nat
    decreases s.len(),
{
    if s.len() == 0 {
        0
    } else {
        decimal_value(s.drop_last()) * 10 + digit_value(s.last())
    }
}

/// What `str::parse::<u32>` gives: an optional `+`, then at least one ASCII
/// digit, and a value that fits in 32 bits.
pub open spec fn parse_u32_spec(s: Seq<char>) -> Option<u32> {
    let digits = if s.len() > 0 && s[0] == '+' { s.drop_first() } else { s };
    if digits.len() > 0 && all_digits(digits) && decimal_value(digits) <= u32::MAX {
        Some(decimal_value(digits) as u32)
    } else {
        None
    }
}

proof fn lemma_decimal_prefix_monotone(s: Seq<char>, k: int)
    requires
        0 <= k <= s.len(),
        all_digits(s),
    ensures
        decimal_value(s.take(k)) <= decimal_value(s),
    decreases s.len(),
{
    if k < s.len() {
        let t = s.drop_last();
        assert(all_digits(t)) by {
            assert forall|i: int| 0 <= i < t.len() implies #[trigger] is_ascii_digit(t[i]) by {
                assert(t[i] == s[i]);
            }
        }
        lemma_decimal_prefix_monotone(t, k);
        assert(t.take(k) =~= s.take(k));
    } else {
        assert(s.take(k) =~= s);
    }
}

/// The characters of a string, one by one.
pub fn chars_of(s: &str) -> (r: Vec<char>)
    ensures
        r@ == s@,
{
    let n = s.unicode_len();
    let mut r: Vec<char> = Vec::new();
    let mut i: usize = 0;
    while i < n
        invariant
            n == s@.len(),
            i <= n,
            r@ == s@.take(i as int),
        decreases n - i,
    {
        let c = s.get_char(i);
        r.push(c);
        i = i + 1;
        assert(r@ =~= s@.take(i as int));
    }
    assert(r@ =~= s@);
    r
}

/// The value of the digits `s[from..to]`, when they are all ASCII digits
/// and their value fits in 32 bits.
pub fn digits_value(s: &Vec<char>, from: usize, to: usize) -> (r: Option<u32>)
    requires
        from <= to <= s@.len(),
    ensures
        r.is_some() <==> (all_digits(s@.subrange(from as int, to as int)) && decimal_value(
            s@.subrange(from as int, to as int),
        ) <= u32::MAX),
        r matches Some(v) ==> v == decimal_value(s@.subrange(from as int, to as int)),
{
    let ghost digits = s@.subrange(from as int, to as int);
    let mut acc: u64 = 0;
    let mut i: usize = from;
    while i < to
        invariant
            from <= i <= to,
            to <= s@.len(),
            digits == s@.subrange(from as int, to as int),
            all_digits(digits.take(i - from)),
            acc == decimal_value(digits.take(i - from)),
            acc <= u32::MAX,
        decreases to - i,
    {
        let c = s[i];
        assert(digits[i - from] == c);
        if !('0' <= c && c <= '9') {
            assert(!is_ascii_digit(digits[i - from]));
            assert(!all_digits(digits));
            return None;
        }
        let ghost before = digits.take(i - from);
        let ghost after = digits.take(i - from + 1);
        assert(after.drop_last() =~= before);
        assert(after.last() == c);
        acc = acc * 10 + ((c as u32) - ('0' as u32)) as u64;
        i = i + 1;
        assert(all_digits(after)) by {
            assert forall|j: int| 0 <= j < after.len() implies #[trigger] is_ascii_digit(after[j]) by {
                if j < before.len() {
                    assert(after[j] == before[j]);
                }
            }
        }
        if acc > 4294967295 {
            proof {
                if all_digits(digits) {
                    lemma_decimal_prefix_monotone(digits, i - from);
                }
            }
            return None;
        }
    }
    assert(digits.take(to - from) =~= digits);
    Some(acc as u32)
}

/// Parses a decimal `u32` in the manner of `str::parse::<u32>`.
pub fn parse_u32(s: &Vec<char>) -> (r: Option<u32>)
    ensures
        r == parse_u32_spec(s@),
{
    let n = s.len();
    let start: usize = if n > 0 && s[0] == '+' { 1 } else { 0 };
    let ghost digits = if s@.len() > 0 && s@[0] == '+' { s@.drop_first() } else { s@ };
    assert(digits =~= s@.subrange(start as int, n as int));
    if start >= n {
        return None;
    }
    digits_value(s, start, n)
}

/// Whether every character of `s[from..to]` is an ASCII digit.
pub fn all_digits_in(s: &Vec<char>, from: usize, to: usize) -> (r: bool)
    requires
        from <= to <= s@.len(),
    ensures
        r == all_digits(s@.subrange(from as int, to as int)),
{
    let mut i: usize = from;
    while i < to
        invariant
            from <= i <= to,
            to <= s@.len(),
            forall|j: int| from <= j < i ==> #[trigger] is_ascii_digit(s@[j]),
        decreases to - i,
    {
        let c = s[i];
        if !('0' <= c && c <= '9') {
            assert(!is_ascii_digit(s@.subrange(from as int, to as int)[i - from]));
            return false;
        }
        i = i + 1;
    }
    assert forall|j: int| 0 <= j < to - from implies #[trigger] is_ascii_digit(
        s@.subrange(from as int, to as int)[j],
    ) by {
        assert(s@.subrange(from as int, to as int)[j] == s@[from + j]);
    }
    true
}

} // verus!

verus! {

/// Whether `c` is the lowercase letter `lower` or its ASCII capital.
pub open spec fn folds_to(c: char, lower: char) -> bool {
    c == lower || ('A' <= c <= 'Z' && (c as u32) + 32 == (lower as u32))
}

/// Whether `s` spells the three lowercase letters `a b c`, ignoring ASCII case.
pub open spec fn spells(s: Seq<char>, a: char, b: char, c: char) -> bool {
    s.len() == 3 && folds_to(s[0], a) && folds_to(s[1], b) && folds_to(s[2], c)
}

pub fn folds_to_exec(c: char, lower: char) -> (r: bool)
    ensures
        r == folds_to(c, lower),
{
    c == lower || ('A' <= c && c <= 'Z' && (c as u32) + 32 == (lower as u32))
}

pub fn spells_exec(s: &Vec<char>, a: char, b: char, c: char) -> (r: bool)
    ensures
        r == spells(s@, a, b, c),
{
    s.len() == 3 && folds_to_exec(s[0], a) && folds_to_exec(s[1], b) && folds_to_exec(s[2], c)
}

} // verus!

verus! {

/// The ASCII digit for a number below ten.
pub open spec fn digit_char(d: nat) -> char {
    if d == 0 { '0' } else if d == 1 { '1' } else if d == 2 { '2' } else if d == 3 { '3' }
    else if d == 4 { '4' } else if d == 5 { '5' } else if d == 6 { '6' } else if d == 7 { '7' }
    else if d == 8 { '8' } else { '9' }
}

/// The decimal digits of a number, without leading zeros.
pub open spec fn decimal_digits(n: nat) -> Seq<char>
    decreases n,
{
    if n < 10 {
        seq![digit_char(n)]
    } else {
        decimal_digits(n / 10).push(digit_char(n % 10))
    }
}

fn digit_str(d: u64) -> (r: &'static str)
    requires
        d < 10,
    ensures
        r@ == seq![digit_char(d as nat)],
{
    proof {
        reveal_strlit("0");
        reveal_strlit("1");
        reveal_strlit("2");
        reveal_strlit("3");
        reveal_strlit("4");
        reveal_strlit("5");
        reveal_strlit("6");
        reveal_strlit("7");
        reveal_strlit("8");
        reveal_strlit("9");
    }
    if d == 0 { "0" } else if d == 1 { "1" } else if d == 2 { "2" } else if d == 3 { "3" }
    else if d == 4 { "4" } else if d == 5 { "5" } else if d == 6 { "6" } else if d == 7 { "7" }
    else if d == 8 { "8" } else { "9" }
}

/// A number written in decimal.
pub fn decimal_string(n: u64) -> (r: String)
    ensures
        r@ == decimal_digits(n as nat),
    decreases n,
{
    if n < 10 {
        String::from_str(digit_str(n))
    } else {
        let mut r = decimal_string(n / 10);
        r.append(digit_str(n % 10));
        r
    }
}

} // verus!

verus! {

/// The pieces between the separators, as `str::split` yields them: one more
/// piece than there are separators, empty pieces included.
pub open spec fn split_spec(s: Seq<char>, sep: char) -> Seq<Seq<char>>
    decreases s.len(),
{
    if s.len() == 0 {
        seq![seq![]]
    } else {
        let rest = split_spec(s.drop_last(), sep);
        if s.last() == sep {
            rest.push(seq![])
        } else {
            rest.update(rest.len() - 1, rest.last().push(s.last()))
        }
    }
}

pub proof fn lemma_split_nonempty(s: Seq<char>, sep: char)
    ensures
        split_spec(s, sep).len() >= 1,
    decreases s.len(),
{
    if s.len() > 0 {
        lemma_split_nonempty(s.drop_last(), sep);
    }
}

/// The views of a list of string slices.
pub open spec fn views_of(pieces: Seq<&str>) -> Seq<Seq<char>> {
    pieces.map_values(|p: &str| p@)
}

/// Splits `s` at every `sep`, as `str::split` does.
pub fn split_at_char<'a>(s: &'a str, sep: char) -> (r: Vec<&'a str>)
    ensures
        views_of(r@) == split_spec(s@, sep),
{
    let n = s.unicode_len();
    let mut pieces: Vec<&'a str> = Vec::new();
    let mut start: usize = 0;
    let mut i: usize = 0;
    assert(s@.take(0) =~= seq![]);
    assert(views_of(pieces@).push(s@.subrange(0, 0)) =~= seq![seq![]]);
    while i < n
        invariant
            n == s@.len(),
            start <= i <= n,
            split_spec(s@.take(i as int), sep) == views_of(pieces@).push(
                s@.subrange(start as int, i as int),
            ),
        decreases n - i,
    {
        let c = s.get_char(i);
        let ghost prefix = s@.take(i + 1);
        assert(prefix.drop_last() =~= s@.take(i as int));
        assert(prefix.last() == c);
        proof {
            lemma_split_nonempty(s@.take(i as int), sep);
        }
        if c == sep {
            let piece = s.substring_char(start, i);
            pieces.push(piece);
            i = i + 1;
            start = i;
            assert(views_of(pieces@) =~= views_of(pieces@.drop_last()).push(piece@));
            assert(s@.subrange(start as int, i as int) =~= seq![]);
        } else {
            i = i + 1;
            assert(s@.subrange(start as int, i as int) =~= s@.subrange(start as int, i - 1).push(c));
        }
        assert(split_spec(s@.take(i as int), sep) =~= views_of(pieces@).push(
            s@.subrange(start as int, i as int),
        ));
    }
    let last = s.substring_char(start, n);
    let ghost before = pieces@;
    pieces.push(last);
    assert(s@.take(n as int) =~= s@);
    assert(views_of(pieces@) =~= views_of(before).push(last@));
    pieces
}

/// The pieces that are not empty, in order.
pub open spec fn nonempty_pieces(pieces: Seq<Seq<char>>) -> Seq<Seq<char>>
    decreases pieces.len(),
{
    if pieces.len() == 0 {
        seq![]
    } else if pieces.last().len() == 0 {
        nonempty_pieces(pieces.drop_last())
    } else {
        nonempty_pieces(pieces.drop_last()).push(pieces.last())
    }
}

/// The pieces of `pieces` that are not empty, in order.
pub fn drop_empty<'a>(pieces: Vec<&'a str>) -> (r: Vec<&'a str>)
    ensures
        views_of(r@) == nonempty_pieces(views_of(pieces@)),
{
    let mut r: Vec<&'a str> = Vec::new();
    let n = pieces.len();
    let mut i: usize = 0;
    while i < n
        invariant
            n == pieces@.len(),
            i <= n,
            views_of(r@) == nonempty_pieces(views_of(pieces@.take(i as int))),
        decreases n - i,
    {
        let piece = pieces[i];
        let ghost before = r@;
        assert(views_of(pieces@.take(i + 1)).drop_last() =~= views_of(pieces@.take(i as int)));
        assert(views_of(pieces@.take(i + 1)).last() == piece@);
        if piece.unicode_len() > 0 {
            r.push(piece);
            assert(views_of(r@) =~= views_of(before).push(piece@));
        }
        i = i + 1;
    }
    assert(pieces@.take(n as int) =~= pieces@);
    r
}

} // verus!

verus! {

pub proof fn lemma_digit_small(c: char)
    requires
        is_ascii_digit(c),
    ensures
        digit_value(c) <= 9,
{
}

pub proof fn lemma_two_digits_small(d: Seq<char>)
    requires
        1 <= d.len() <= 2,
        all_digits(d),
    ensures
        decimal_value(d) < 100,
{
    lemma_digit_small(d[0]);
    let e: Seq<char> = seq![];
    assert(decimal_value(e) == 0);
    if d.len() == 2 {
        lemma_digit_small(d[1]);
        let first = d.drop_last();
        assert(first.drop_last() =~= e);
        assert(first.last() == d[0]);
        assert(decimal_value(first) == decimal_value(first.drop_last()) * 10 + digit_value(d[0]));
        assert(decimal_value(d) == decimal_value(first) * 10 + digit_value(d[1]));
    } else {
        assert(d.drop_last() =~= e);
        assert(decimal_value(d) == decimal_value(d.drop_last()) * 10 + digit_value(d[0]));
    }
}

/// The digits of a number are ASCII digits, at least one, and their value
/// is the number.
pub proof fn lemma_decimal_digits_value(n: nat)
    ensures
        decimal_digits(n).len() >= 1,
        all_digits(decimal_digits(n)),
        decimal_value(decimal_digits(n)) == n,
    decreases n,
{
    if n < 10 {
        let d = decimal_digits(n);
        assert(d.drop_last() =~= Seq::<char>::empty());
        assert(decimal_value(Seq::<char>::empty()) == 0);
    } else {
        lemma_decimal_digits_value(n / 10);
        let d = decimal_digits(n);
        let high = decimal_digits(n / 10);
        assert(d.drop_last() =~= high);
        assert(d.last() == digit_char(n % 10));
        assert forall|i: int| 0 <= i < d.len() implies #[trigger] is_ascii_digit(d[i]) by {
            if i < high.len() {
                assert(d[i] == high[i]);
            }
        }
    }
}

} // verus!
