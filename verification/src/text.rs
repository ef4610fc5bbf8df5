//! Text helpers: comparison, search, joining and decimal rendering, each
//! stated over the characters of its arguments.
use vstd::prelude::*;
use vstd::string::StringExecFns;

verus! {

/// `String::push` appends the character to the text.
pub assume_specification[ String::push ](s: &mut String, c: char)
    ensures
        final(s)@ == old(s)@.push(c),
;

/// Whether `s` begins with `prefix`.
pub open spec fn begins_with(s: Seq<char>, prefix: Seq<char>) -> bool {
    prefix.len() <= s.len() && s.take(prefix.len() as int) == prefix
}

/// Whether `part` occurs in `s` at position `at`.
pub open spec fn occurs_at(s: Seq<char>, part: Seq<char>, at: int) -> bool {
    0 <= at && at + part.len() <= s.len() && s.subrange(at, at + part.len()) == part
}

/// Whether `part` occurs somewhere in `s`.
pub open spec fn has_part(s: Seq<char>, part: Seq<char>) -> bool {
    exists|at: int| occurs_at(s, part, at)
}

/// The character of a decimal digit.
pub open spec fn digit_char(d: int) -> char
    recommends
        0 <= d < 10,
{
    (48 + d) as u8 as char
}

/// The decimal numeral of `n`, without leading zeros.
pub open spec fn decimal(n: nat) -> Seq<char>
    decreases n,
{
    if n < 10 {
        seq![digit_char(n as int)]
    } else {
        decimal(n / 10).push(digit_char((n % 10) as int))
    }
}

/// The decimal numeral of `i`, with a leading minus sign if it is negative.
pub open spec fn signed_decimal(i: int) -> Seq<char> {
    if i < 0 {
        seq!['-'] + decimal((-i) as nat)
    } else {
        decimal(i as nat)
    }
}

/// Whether a character is white space, as Unicode has it.
pub open spec fn white(c: char) -> bool {
    ||| '\u{9}' <= c <= '\u{d}'
    ||| c == ' ' || c == '\u{85}' || c == '\u{a0}' || c == '\u{1680}'
    ||| '\u{2000}' <= c <= '\u{200a}'
    ||| c == '\u{2028}' || c == '\u{2029}' || c == '\u{202f}' || c == '\u{205f}'
    ||| c == '\u{3000}'
}

/// Whether a text holds nothing but white space.
pub open spec fn blank(s: Seq<char>) -> bool {
    forall|i: int| 0 <= i < s.len() ==> white(#[trigger] s[i])
}

/// The word for a truth value.
pub open spec fn bool_word(b: bool) -> Seq<char> {
    if b {
        "true"@
    } else {
        "false"@
    }
}

/// The characters of `s`.
pub fn chars_of(s: &str) -> (r: Vec<char>)
    ensures
        r@ == s@,
{
    let mut r: Vec<char> = Vec::new();
    for c in it: s.chars()
        invariant
            r@ == s@.take(it.index() as int),
            it.seq() == s@,
    {
        r.push(c);
        assert(s@.take(it.index() as int + 1) =~= s@.take(it.index() as int).push(c));
    }
    assert(s@.take(s@.len() as int) =~= s@);
    r
}

/// Whether two texts are the same.
pub fn same_text(a: &str, b: &str) -> (r: bool)
    ensures
        r == (a@ == b@),
{
    let left = chars_of(a);
    let right = chars_of(b);
    if left.len() != right.len() {
        return false;
    }
    for i in 0..left.len()
        invariant
            left.len() == right.len(),
            left@ == a@,
            right@ == b@,
            forall|j: int| 0 <= j < i ==> left@[j] == right@[j],
    {
        if left[i] != right[i] {
            assert(a@[i as int] != b@[i as int]);
            return false;
        }
    }
    assert(a@ =~= b@);
    true
}

/// Whether `part` stands in `s` at position `at`.
fn stands_at(s: &Vec<char>, part: &Vec<char>, at: usize) -> (r: bool)
    ensures
        r == occurs_at(s@, part@, at as int),
{
    if at > s.len() || part.len() > s.len() - at {
        return false;
    }
    for i in 0..part.len()
        invariant
            at + part.len() <= s.len(),
            forall|j: int| 0 <= j < i ==> s@[at + j] == part@[j],
    {
        if s[at + i] != part[i] {
            assert(s@.subrange(at as int, at + part.len())[i as int] != part@[i as int]);
            return false;
        }
    }
    assert(s@.subrange(at as int, at + part.len()) =~= part@);
    true
}

/// Whether `s` begins with `prefix`.
pub fn starts_with(s: &str, prefix: &str) -> (r: bool)
    ensures
        r == begins_with(s@, prefix@),
{
    let whole = chars_of(s);
    let part = chars_of(prefix);
    assert(prefix@.len() <= s@.len() ==> s@.subrange(0, prefix@.len() as int) =~= s@.take(
        prefix@.len() as int,
    ));
    stands_at(&whole, &part, 0)
}

/// Whether `part` occurs somewhere in `s`.
pub fn contains_text(s: &str, part: &str) -> (r: bool)
    ensures
        r == has_part(s@, part@),
{
    let whole = chars_of(s);
    let needle = chars_of(part);
    for at in 0..whole.len()
        invariant
            whole@ == s@,
            needle@ == part@,
            forall|k: int| 0 <= k < at ==> !occurs_at(s@, part@, k),
    {
        if stands_at(&whole, &needle, at) {
            assert(occurs_at(s@, part@, at as int));
            return true;
        }
    }
    let last = stands_at(&whole, &needle, whole.len());
    proof {
        if last {
            assert(occurs_at(s@, part@, s@.len() as int));
        } else {
            assert forall|k: int| !occurs_at(s@, part@, k) by {
                if k == s@.len() {
                } else if 0 <= k < s@.len() {
                }
            }
        }
    }
    last
}

/// Whether a text holds nothing but white space.
pub fn is_blank(s: &str) -> (r: bool)
    ensures
        r == blank(s@),
{
    let all = chars_of(s);
    for i in 0..all.len()
        invariant
            all@ == s@,
            forall|j: int| 0 <= j < i ==> white(#[trigger] s@[j]),
    {
        let c = all[i];
        let space = ('\u{9}' <= c && c <= '\u{d}') || c == ' ' || c == '\u{85}' || c == '\u{a0}'
            || c == '\u{1680}' || ('\u{2000}' <= c && c <= '\u{200a}') || c == '\u{2028}' || c
            == '\u{2029}' || c == '\u{202f}' || c == '\u{205f}' || c == '\u{3000}';
        if !space {
            assert(!white(s@[i as int]));
            return false;
        }
    }
    true
}

/// The decimal numeral of `n`.
pub fn decimal_text(n: u64) -> (r: String)
    ensures
        r@ == decimal(n as nat),
    decreases n,
{
    let mut r = if n < 10 {
        "".to_owned()
    } else {
        decimal_text(n / 10)
    };
    r.push((48 + (n % 10) as u8) as char);
    proof {
        reveal_strlit("");
        assert(n < 10 ==> r@ =~= seq![digit_char(n as int)]);
    }
    r
}

/// The decimal numeral of `i`, with a leading minus sign if it is negative.
pub fn signed_text(i: i64) -> (r: String)
    ensures
        r@ == signed_decimal(i as int),
{
    if i >= 0 {
        return decimal_text(i as u64);
    }
    let magnitude: u64 = if i == i64::MIN {
        9_223_372_036_854_775_808
    } else {
        (-i) as u64
    };
    let digits = decimal_text(magnitude);
    proof {
        reveal_strlit("-");
        assert("-"@ =~= seq!['-']);
    }
    joined("-", digits.as_str())
}

/// The word for a truth value.
pub fn bool_text(b: bool) -> (r: &'static str)
    ensures
        r@ == bool_word(b),
{
    if b {
        "true"
    } else {
        "false"
    }
}

/// The texts `a` and `b`, one after the other.
pub fn joined(a: &str, b: &str) -> (r: String)
    ensures
        r@ == a@ + b@,
{
    let mut r = a.to_owned();
    r.append(b);
    r
}

/// The texts `a`, `b` and `c`, one after the other.
pub fn joined3(a: &str, b: &str, c: &str) -> (r: String)
    ensures
        r@ == a@ + b@ + c@,
{
    let mut r = a.to_owned();
    r.append(b);
    r.append(c);
    r
}

/// A text begins with a prefix exactly if it is the prefix with something, or
/// nothing, behind it.
pub proof fn law_a_prefix_has_the_rest_behind_it(s: Seq<char>, prefix: Seq<char>, rest: Seq<char>)
    ensures
        begins_with(prefix + rest, prefix),
        begins_with(s, prefix) ==> s == prefix + s.skip(prefix.len() as int),
{
    assert((prefix + rest).take(prefix.len() as int) =~= prefix);
    if begins_with(s, prefix) {
        assert(s =~= s.take(prefix.len() as int) + s.skip(prefix.len() as int));
    }
}

/// A text has a part exactly if it is that part with something, or nothing,
/// before and behind it.
pub proof fn law_a_part_has_the_rest_around_it(
    s: Seq<char>,
    before: Seq<char>,
    part: Seq<char>,
    behind: Seq<char>,
)
    ensures
        has_part(before + part + behind, part),
        has_part(s, part) ==> exists|a: Seq<char>, b: Seq<char>| s == #[trigger] (a + part + b),
{
    let whole = before + part + behind;
    let at = before.len() as int;
    assert(whole.subrange(at, at + part.len()) =~= part);
    assert(occurs_at(whole, part, at));
    if has_part(s, part) {
        let at = choose|at: int| occurs_at(s, part, at);
        let a = s.take(at);
        let b = s.skip(at + part.len());
        assert(s =~= a + part + b);
    }
}

/// The number that decimal digits stand for.
pub open spec fn numeral_value(digits: Seq<char>) -> int
    decreases digits.len(),
{
    if digits.len() == 0 {
        0
    } else {
        numeral_value(digits.drop_last()) * 10 + (digits.last() as int - '0' as int)
    }
}

/// A numeral stands for its number, holds nothing but digits, and has no zero
/// in front, but for zero itself.
pub proof fn law_numerals_stand_for_their_number(n: nat)
    ensures
        numeral_value(decimal(n)) == n,
        decimal(n).len() > 0,
        forall|i: int|
            0 <= i < decimal(n).len() ==> '0' <= #[trigger] decimal(n)[i] && decimal(n)[i] <= '9',
        n > 0 ==> decimal(n)[0] != '0',
    decreases n,
{
    if n < 10 {
        assert(decimal(n).drop_last() =~= Seq::empty());
        assert(numeral_value(decimal(n).drop_last()) == 0);
    } else {
        law_numerals_stand_for_their_number(n / 10);
        let head = decimal(n / 10);
        assert(decimal(n).drop_last() =~= head);
        assert forall|i: int| 0 <= i < decimal(n).len() implies '0' <= #[trigger] decimal(n)[i]
            && decimal(n)[i] <= '9' by {
            if i < head.len() {
                assert(decimal(n)[i] == head[i]);
            }
        }
    }
}

/// A negative number reads as a minus sign and its magnitude, any other as its
/// numeral.
pub proof fn law_negative_numbers_have_a_sign(n: nat)
    ensures
        signed_decimal(n as int) == decimal(n),
        n > 0 ==> signed_decimal(-(n as int)) == seq!['-'] + decimal(n),
{
}

/// Two texts one behind the other are blank exactly if both are; one character
/// is blank exactly if it is white space, and so is no text at all.
pub proof fn law_blank_texts_have_blank_parts(a: Seq<char>, b: Seq<char>, c: char)
    ensures
        blank(a + b) <==> blank(a) && blank(b),
        blank(seq![c]) <==> white(c),
        blank(Seq::<char>::empty()),
{
    if blank(a + b) {
        assert forall|i: int| 0 <= i < a.len() implies white(#[trigger] a[i]) by {
            assert((a + b)[i] == a[i]);
        }
        assert forall|i: int| 0 <= i < b.len() implies white(#[trigger] b[i]) by {
            assert((a + b)[a.len() + i] == b[i]);
        }
    }
    if white(c) {
        assert(blank(seq![c]));
    }
    if blank(seq![c]) {
        assert(white(seq![c][0]));
    }
}

/// The words for the truth values.
pub proof fn law_truth_values_have_their_words()
    ensures
        bool_word(true) == "true"@,
        bool_word(false) == "false"@,
{
}

/// White space is what Unicode says it is: of the characters of ASCII the
/// space and the five controls from the tab to the carriage return, and
/// nineteen more, none of which is a letter, a digit or a mark.
pub proof fn law_white_space_is_unicodes(c: char)
    ensures
        white(c) <==> {
            let n = c as u32;
            ||| n == 9 || n == 10 || n == 11 || n == 12 || n == 13 || n == 32
            ||| n == 133 || n == 160 || n == 5760
            ||| 8192 <= n <= 8202
            ||| n == 8232 || n == 8233 || n == 8239 || n == 8287 || n == 12288
        },
        'a' <= c <= 'z' || 'A' <= c <= 'Z' || '0' <= c <= '9' ==> !white(c),
{
}

}
