//! What comes of the text operations, character by character.

use crate::catalog;
use crate::laws;
use crate::text;
use vstd::prelude::*;

verus! {

// ---- Comparing ----

/// Two strings compare as the same exactly where they are as long as each other
/// and agree at every place.
pub proof fn same_texts_agree_everywhere(a: &str, b: &str, same: bool)
    requires
        call_ensures(text::same_text, (a, b), same),
    ensures
        same <==> a@.len() == b@.len() && forall|i: int|
            0 <= i < a@.len() ==> #[trigger] a@[i] == b@[i],
{
    if a@.len() == b@.len() && forall|i: int| 0 <= i < a@.len() ==> #[trigger] a@[i] == b@[i] {
        assert(a@ =~= b@);
    }
}

/// A string begins with a prefix exactly where the prefix followed by the rest
/// of the string is the string.
pub proof fn prefixes_come_first(s: &str, prefix: &str, yes: bool)
    requires
        call_ensures(text::starts_with, (s, prefix), yes),
    ensures
        yes <==> prefix@.len() <= s@.len() && prefix@ + s@.skip(prefix@.len() as int) == s@,
        yes <==> prefix@.len() <= s@.len() && forall|i: int|
            0 <= i < prefix@.len() ==> #[trigger] s@[i] == prefix@[i],
{
    let n = prefix@.len() as int;
    if n <= s@.len() {
        if forall|i: int| 0 <= i < n ==> #[trigger] s@[i] == prefix@[i] {
            assert(prefix@ =~= s@.subrange(0, n));
            assert(prefix@ + s@.skip(n) =~= s@);
        }
        if prefix@ + s@.skip(n) == s@ {
            assert forall|i: int| 0 <= i < n implies #[trigger] s@[i] == prefix@[i] by {
                assert((prefix@ + s@.skip(n))[i] == prefix@[i]);
            }
        }
        if yes {
            assert forall|i: int| 0 <= i < n implies #[trigger] s@[i] == prefix@[i] by {
                assert(s@.subrange(0, n)[i] == prefix@[i]);
            }
        }
    }
}

/// A string and its vector of characters hold the same, and any part of the
/// vector makes the string of exactly these characters.
pub proof fn characters_are_copied(s: &str, chars: Vec<char>, from: usize, to: usize, part: String)
    requires
        call_ensures(text::chars_of, (s,), chars),
        from <= to <= s@.len(),
        call_ensures(text::text_of, (&chars, from, to), part),
    ensures
        chars@.len() == s@.len(),
        forall|i: int| 0 <= i < s@.len() ==> #[trigger] chars@[i] == s@[i],
        part@.len() == to - from,
        forall|i: int| 0 <= i < to - from ==> #[trigger] part@[i] == s@[from + i],
{
}

// ---- Dropping ----

/// Dropping a leading run drops that character and no other, and all of it: the
/// rest is the end of the string, and a string that begins otherwise is kept
/// whole.
pub proof fn a_leading_run_is_dropped_and_no_more(s: &str, c: char, rest: String)
    requires
        call_ensures(text::skip_leading, (s, c), rest),
    ensures
        rest@.len() <= s@.len(),
        rest@ == s@.skip(s@.len() - rest@.len()),
        forall|i: int| 0 <= i < s@.len() - rest@.len() ==> #[trigger] s@[i] == c,
        rest@.len() > 0 ==> rest@[0] != c,
        s@.len() == 0 || s@[0] != c ==> rest@ == s@,
{
    laws::leading_runs_are_dropped(s@, c);
}

/// How long the leading run is decides what is left.
pub proof fn the_run_decides_what_is_left(s: Seq<char>, c: char, run: int)
    requires
        0 <= run <= s.len(),
        forall|i: int| 0 <= i < run ==> #[trigger] s[i] == c,
        run < s.len() ==> s[run] != c,
    ensures
        text::without_leading(s, c) == s.skip(run),
{
    laws::leading_runs_are_dropped(s, c);
    let dropped = s.len() - text::without_leading(s, c).len();
    if dropped < run {
        assert(text::without_leading(s, c)[0] == s[dropped]);
    }
    if dropped > run {
        assert(s[run] == c);
    }
}

/// White space is what Unicode calls so: 25 characters, by their codes.
pub proof fn white_space_by_code(c: char)
    ensures
        text::is_white_space(c) <==> {
            let code = c as u32;
            ||| 0x9 <= code <= 0xd
            ||| code == 0x20
            ||| code == 0x85
            ||| code == 0xa0
            ||| code == 0x1680
            ||| 0x2000 <= code <= 0x200a
            ||| 0x2028 <= code <= 0x2029
            ||| code == 0x202f
            ||| code == 0x205f
            ||| code == 0x3000
        },
{
}

proof fn lemma_trimmed_start_drops(s: Seq<char>)
    ensures
        text::trimmed_start(s).len() <= s.len(),
        text::trimmed_start(s) == s.skip(s.len() - text::trimmed_start(s).len()),
        forall|i: int|
            0 <= i < s.len() - text::trimmed_start(s).len() ==> text::is_white_space(
                #[trigger] s[i],
            ),
        text::trimmed_start(s).len() > 0 ==> !text::is_white_space(text::trimmed_start(s)[0]),
    decreases s.len(),
{
    if s.len() > 0 && text::is_white_space(s[0]) {
        let rest = text::trimmed_start(s);
        lemma_trimmed_start_drops(s.drop_first());
        assert(s.drop_first().skip(s.drop_first().len() - rest.len()) == s.skip(
            s.len() - rest.len(),
        ));
        assert forall|i: int| 0 <= i < s.len() - rest.len() implies text::is_white_space(
            #[trigger] s[i],
        ) by {
            if i > 0 {
                assert(text::is_white_space(s.drop_first()[i - 1]));
            }
        }
    } else {
        assert(s.skip(0) == s);
    }
}

proof fn lemma_trimmed_end_drops(s: Seq<char>)
    ensures
        text::trimmed_end(s).len() <= s.len(),
        text::trimmed_end(s) == s.take(text::trimmed_end(s).len() as int),
        forall|i: int|
            text::trimmed_end(s).len() <= i < s.len() ==> text::is_white_space(#[trigger] s[i]),
        text::trimmed_end(s).len() > 0 ==> !text::is_white_space(text::trimmed_end(s).last()),
    decreases s.len(),
{
    if s.len() > 0 && text::is_white_space(s.last()) {
        let front = text::trimmed_end(s);
        lemma_trimmed_end_drops(s.drop_last());
        assert(s.drop_last().take(front.len() as int) == s.take(front.len() as int));
        assert forall|i: int| front.len() <= i < s.len() implies text::is_white_space(
            #[trigger] s[i],
        ) by {
            if i < s.len() - 1 {
                assert(text::is_white_space(s.drop_last()[i]));
            }
        }
    } else {
        assert(s.take(s.len() as int) == s);
    }
}

/// What is left of a text once white space is trimmed, by where its first and
/// its last other character stand: everything from the one to the other. A text
/// of white space alone comes to nothing.
pub proof fn the_inner_text_is_kept(s: Seq<char>, from: int, to: int)
    requires
        0 <= from <= to <= s.len(),
        forall|i: int| 0 <= i < from ==> text::is_white_space(#[trigger] s[i]),
        forall|i: int| to <= i < s.len() ==> text::is_white_space(#[trigger] s[i]),
        from < to ==> !text::is_white_space(s[from]) && !text::is_white_space(s[to - 1]),
    ensures
        text::trimmed(s) == s.subrange(from, to),
{
    let start = text::trimmed_start(s);
    let inner = text::trimmed(s);
    lemma_trimmed_start_drops(s);
    lemma_trimmed_end_drops(start);
    let a = s.len() - start.len();
    let b = a + inner.len();
    assert(inner =~= s.subrange(a, b));
    if inner.len() > 0 {
        assert(inner[0] == s[a] && start[0] == s[a]);
        assert(inner.last() == s[b - 1]);
    }
    assert forall|i: int| b <= i < s.len() implies text::is_white_space(#[trigger] s[i]) by {
        assert(text::is_white_space(start[i - a]));
    }
    if from < to {
        assert(!(from < a));
        assert(!(to - 1 >= b));
        assert(inner.len() > 0);
        assert(!(a < from));
        assert(!(b - 1 >= to));
    } else if inner.len() > 0 {
        assert(text::is_white_space(s[a]));
    }
    assert(inner =~= s.subrange(from, to));
}

/// Trimming drops white space alone, at the two ends alone, and leaves none
/// there.
pub proof fn trimming_drops_white_space_alone(s: &str, inner: String)
    requires
        call_ensures(text::trim_text, (s,), inner),
    ensures
        exists|from: int|
            {
                &&& 0 <= from <= s@.len() - inner@.len()
                &&& inner@ == #[trigger] s@.subrange(from, from + inner@.len())
                &&& forall|i: int| 0 <= i < from ==> text::is_white_space(#[trigger] s@[i])
                &&& forall|i: int|
                    from + inner@.len() <= i < s@.len() ==> text::is_white_space(#[trigger] s@[i])
            },
        inner@.len() > 0 ==> !text::is_white_space(inner@[0]) && !text::is_white_space(
            inner@.last(),
        ),
        s@.len() > 0 && !text::is_white_space(s@[0]) && !text::is_white_space(s@.last())
            ==> inner@ == s@,
{
    let start = text::trimmed_start(s@);
    lemma_trimmed_start_drops(s@);
    lemma_trimmed_end_drops(start);
    let from = s@.len() - start.len();
    assert(inner@ =~= s@.subrange(from, from + inner@.len()));
    assert forall|i: int| from + inner@.len() <= i < s@.len() implies text::is_white_space(
        #[trigger] s@[i],
    ) by {
        assert(text::is_white_space(start[i - from]));
    }
    if inner@.len() > 0 {
        assert(inner@[0] == start[0]);
    }
    if s@.len() > 0 && !text::is_white_space(s@[0]) && !text::is_white_space(s@.last()) {
        the_inner_text_is_kept(s@, 0, s@.len() as int);
        assert(s@.subrange(0, s@.len() as int) == s@);
    }
}

// ---- Numbers ----

/// A run of digits means what it means in decimal: nothing is zero, and each
/// further digit counts the earlier ones tenfold.
pub proof fn digits_count_tenfold(digits: Seq<char>, d: char)
    requires
        '0' <= d <= '9',
    ensures
        catalog::digits_value(Seq::empty()) == 0,
        catalog::digits_value(digits.push(d)) == 10 * catalog::digits_value(digits) + (d as int
            - '0' as int),
{
    assert(digits.push(d).drop_last() == digits);
}

/// A number is one or more of the characters `0` to `9`, and nothing else is.
pub proof fn numbers_are_digits_alone(s: Seq<char>)
    ensures
        catalog::is_number(s) <==> s.len() > 0 && forall|i: int|
            0 <= i < s.len() ==> 48 <= (#[trigger] s[i]) as int <= 57,
{
}

pub(crate) proof fn lemma_no_leading_zero(n: nat)
    ensures
        text::decimal(n).len() > 0,
        text::decimal(n).len() > 1 ==> text::decimal(n)[0] != '0',
        n > 0 ==> text::decimal(n)[0] != '0',
    decreases n,
{
    if n >= 10 {
        lemma_no_leading_zero(n / 10);
        assert(text::decimal(n)[0] == text::decimal(n / 10)[0]);
    }
}

/// A number that is written is digits alone, without a needless zero in front,
/// and reads back as the number.
pub proof fn written_numbers_read_back(n: u64, digits: String)
    requires
        call_ensures(text::decimal_text, (n,), digits),
    ensures
        digits@.len() > 0,
        forall|i: int| 0 <= i < digits@.len() ==> '0' <= #[trigger] digits@[i] <= '9',
        digits@.len() > 1 ==> digits@[0] != '0',
        catalog::digits_value(digits@) == n,
{
    laws::decimals_read_back(n as nat);
    lemma_no_leading_zero(n as nat);
}

/// Ten times a number and one digit more is written as the number and that
/// digit.
pub proof fn one_more_digit_is_appended(n: u64, d: u64, digits: String, more: String)
    requires
        0 < n,
        d < 10,
        10 * n + d <= u64::MAX,
        call_ensures(text::decimal_text, (n,), digits),
        call_ensures(text::decimal_text, ((10 * n + d) as u64,), more),
    ensures
        more@.len() == digits@.len() + 1,
        more@.drop_last() == digits@,
        more@.last() as u32 == '0' as u32 + d,
{
    let all = (10 * n + d) as u64;
    assert(all as nat / 10 == n as nat);
    assert(all as int % 10 == d as int);
    assert(more@ == digits@.push(text::digit_char(d as int)));
    assert(more@.drop_last() =~= digits@);
}

/// With at least two digits, a small number is a zero and its digit, and any
/// other is written as usual.
pub proof fn two_digits_at_least(n: u64, plain: String, padded: String)
    requires
        call_ensures(text::decimal_text, (n,), plain),
        call_ensures(text::decimal_two_text, (n,), padded),
    ensures
        padded@.len() >= 2,
        catalog::digits_value(padded@) == n,
        n >= 10 ==> padded@ == plain@,
        n < 10 ==> padded@ == seq!['0', ('0' as u32 + n) as char],
{
    laws::decimals_read_back(n as nat);
    if n < 10 {
        let digit = text::digit_char(n as int);
        assert(padded@ =~= seq!['0', digit]);
        digits_count_tenfold(Seq::empty(), '0');
        digits_count_tenfold(seq!['0'], digit);
        assert(Seq::<char>::empty().push('0') =~= seq!['0']);
        assert(seq!['0'].push(digit) =~= padded@);
    } else {
        lemma_no_leading_zero(n as nat / 10);
        assert(text::decimal(n as nat).len() == text::decimal(n as nat / 10).len() + 1);
    }
}

} // verus!
