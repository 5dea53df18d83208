//! What the operations on text do to every text.

use vstd::prelude::*;

use crate::identity::{made_id, observer_of, stored_id};
use crate::text::{
    ascii_lowercased, decimal_value, is_digit, is_white_space, text_le, trimmed, unsigned_part,
    written_number,
};

verus! {

/// One text is not after another where it is a prefix of it, or is below it in the first character
/// in which the two differ.
pub proof fn lemma_text_order_meaning(a: Seq<char>, b: Seq<char>)
    ensures
        text_le(a, b) <==> a.is_prefix_of(b) || exists|n: int|
            0 <= n < a.len() && n < b.len() && #[trigger] a.take(n) == b.take(n) && a[n] < b[n],
    decreases a.len(),
{
    if a.len() == 0 {
        assert(a =~= b.take(0));
    } else if b.len() == 0 {
    } else if a.first() != b.first() {
        if a.first() < b.first() {
            assert(a.take(0) =~= b.take(0));
        }
        assert forall|n: int|
            0 < n < a.len() && n < b.len() implies #[trigger] a.take(n) != b.take(n) by {
            assert(a.take(n)[0] != b.take(n)[0]);
        }
        if a.is_prefix_of(b) {
            assert(a[0] == b[0]);
        }
    } else {
        let (x, y) = (a.drop_first(), b.drop_first());
        lemma_text_order_meaning(x, y);
        if x.is_prefix_of(y) {
            assert(x =~= y.take(x.len() as int));
            assert forall|i: int| 0 <= i < a.len() implies a[i] == b[i] by {
                if i > 0 {
                    assert(a[i] == x[i - 1]);
                    assert(b[i] == y[i - 1]);
                }
            }
            assert(a =~= b.subrange(0, a.len() as int));
        }
        if a.is_prefix_of(b) {
            assert forall|i: int| 0 <= i < x.len() implies x[i] == y[i] by {
                assert(a[i + 1] == b[i + 1]);
            }
            assert(x =~= y.subrange(0, x.len() as int));
        }
        if exists|n: int|
            0 <= n < x.len() && n < y.len() && #[trigger] x.take(n) == y.take(n) && x[n] < y[n] {
            let n = choose|n: int|
                0 <= n < x.len() && n < y.len() && #[trigger] x.take(n) == y.take(n) && x[n]
                    < y[n];
            assert(a.take(n + 1) =~= seq![a.first()] + x.take(n));
            assert(b.take(n + 1) =~= seq![b.first()] + y.take(n));
            assert(a[n + 1] < b[n + 1]);
        }
        if exists|n: int|
            0 <= n < a.len() && n < b.len() && #[trigger] a.take(n) == b.take(n) && a[n] < b[n] {
            let n = choose|n: int|
                0 <= n < a.len() && n < b.len() && #[trigger] a.take(n) == b.take(n) && a[n]
                    < b[n];
            assert(a.take(n).drop_first() =~= x.take(n - 1));
            assert(b.take(n).drop_first() =~= y.take(n - 1));
            assert(x[n - 1] < y[n - 1]);
        }
    }
}

/// The characters that count as white space.
pub proof fn lemma_white_space_meaning(c: char)
    ensures
        is_white_space(c) <==> seq![
            0x9int, 0xa, 0xb, 0xc, 0xd, 0x20, 0x85, 0xa0, 0x1680, 0x2000, 0x2001, 0x2002, 0x2003,
            0x2004, 0x2005, 0x2006, 0x2007, 0x2008, 0x2009, 0x200a, 0x2028, 0x2029, 0x202f, 0x205f,
            0x3000,
        ].contains(c as int),
{
    let spaces = seq![
        0x9int, 0xa, 0xb, 0xc, 0xd, 0x20, 0x85, 0xa0, 0x1680, 0x2000, 0x2001, 0x2002, 0x2003,
        0x2004, 0x2005, 0x2006, 0x2007, 0x2008, 0x2009, 0x200a, 0x2028, 0x2029, 0x202f, 0x205f,
        0x3000,
    ];
    assert(forall|k: int| 0 <= k < 25 ==> spaces.contains(#[trigger] spaces[k]));
    assert(spaces[0] == 0x9 && spaces[1] == 0xa && spaces[2] == 0xb && spaces[3] == 0xc);
    assert(spaces[4] == 0xd && spaces[5] == 0x20 && spaces[6] == 0x85 && spaces[7] == 0xa0);
    assert(spaces[8] == 0x1680 && spaces[9] == 0x2000 && spaces[10] == 0x2001);
    assert(spaces[11] == 0x2002 && spaces[12] == 0x2003 && spaces[13] == 0x2004);
    assert(spaces[14] == 0x2005 && spaces[15] == 0x2006 && spaces[16] == 0x2007);
    assert(spaces[17] == 0x2008 && spaces[18] == 0x2009 && spaces[19] == 0x200a);
    assert(spaces[20] == 0x2028 && spaces[21] == 0x2029 && spaces[22] == 0x202f);
    assert(spaces[23] == 0x205f && spaces[24] == 0x3000);
}

/// Trimming keeps the part of a text between the first and the last character that is no white
/// space, both of them included, and all that stands between. Its bounds are returned.
pub proof fn lemma_trimmed_meaning(s: Seq<char>) -> (bounds: (int, int))
    ensures
        0 <= bounds.0 <= bounds.1 <= s.len(),
        trimmed(s) == s.subrange(bounds.0, bounds.1),
        bounds.0 < bounds.1 ==> !is_white_space(s[bounds.0]) && !is_white_space(s[bounds.1 - 1]),
        forall|i: int|
            0 <= i < bounds.0 || bounds.1 <= i < s.len() ==> is_white_space(#[trigger] s[i]),
    decreases s.len(),
{
    if s.len() > 0 && is_white_space(s.first()) {
        let rest = s.drop_first();
        let inner = lemma_trimmed_meaning(rest);
        assert(rest.subrange(inner.0, inner.1) =~= s.subrange(inner.0 + 1, inner.1 + 1));
        assert forall|i: int|
            0 <= i < inner.0 + 1 || inner.1 + 1 <= i < s.len() implies is_white_space(
            #[trigger] s[i],
        ) by {
            if i > 0 {
                assert(is_white_space(rest[i - 1]));
            }
        }
        (inner.0 + 1, inner.1 + 1)
    } else if s.len() > 0 && is_white_space(s.last()) {
        let rest = s.drop_last();
        let inner = lemma_trimmed_meaning(rest);
        assert(rest.subrange(inner.0, inner.1) =~= s.subrange(inner.0, inner.1));
        assert forall|i: int|
            0 <= i < inner.0 || inner.1 <= i < s.len() implies is_white_space(#[trigger] s[i]) by {
            if i < s.len() - 1 {
                assert(is_white_space(rest[i]));
            }
        }
        inner
    } else {
        assert(s.subrange(0, s.len() as int) =~= s);
        (0, s.len() as int)
    }
}

/// A digit is a number; a number and one more digit is ten times that number and the digit; a plus
/// sign in front changes nothing.
pub proof fn lemma_numbers_are_decimal(s: Seq<char>, digit: char)
    requires
        '0' <= digit <= '9',
    ensures
        written_number(seq![digit]) == Some(digit as int - '0' as int),
        written_number(s) matches Some(n) ==> written_number(s.push(digit)) == Some(
            10 * n + (digit as int - '0' as int),
        ),
        s.len() > 0 && s[0] != '+' ==> written_number(seq!['+'] + s) == written_number(s),
{
    let one = seq![digit];
    assert(unsigned_part(one) == one);
    assert(one.drop_last() =~= Seq::empty());
    assert(decimal_value(one.drop_last()) == 0);
    if written_number(s) is Some {
        let digits = unsigned_part(s);
        assert(unsigned_part(s.push(digit)) =~= digits.push(digit));
        assert(digits.push(digit).drop_last() =~= digits);
        assert forall|i: int| 0 <= i < digits.push(digit).len() implies is_digit(
            #[trigger] digits.push(digit)[i],
        ) by {
            if i < digits.len() {
                assert(is_digit(digits[i]));
            }
        }
    }
    if s.len() > 0 && s[0] != '+' {
        assert((seq!['+'] + s).drop_first() =~= s);
    }
}

/// Neither the empty text nor a lone plus sign is a number, nor is a text with any other character
/// than a digit, but for a plus sign in front.
pub proof fn lemma_other_text_is_no_number(s: Seq<char>, i: int)
    ensures
        written_number(Seq::empty()) is None,
        written_number(seq!['+']) is None,
        0 <= i < s.len() && !('0' <= s[i] <= '9') && !(i == 0 && s[i] == '+') ==> written_number(
            s,
        ) is None,
{
    assert(seq!['+'].drop_first() =~= Seq::empty());
    if 0 <= i < s.len() && !('0' <= s[i] <= '9') && !(i == 0 && s[i] == '+') {
        let digits = unsigned_part(s);
        if s[0] == '+' {
            assert(digits[i - 1] == s[i]);
            assert(!is_digit(digits[i - 1]));
        } else {
            assert(!is_digit(digits[i]));
        }
    }
}

/// No text writes a number below zero.
pub proof fn lemma_numbers_are_not_negative(word: Seq<char>)
    requires
        written_number(word) is Some,
    ensures
        written_number(word)->0 >= 0,
{
    lemma_digits_are_not_negative(unsigned_part(word));
}

proof fn lemma_digits_are_not_negative(digits: Seq<char>)
    requires
        forall|i: int| 0 <= i < digits.len() ==> is_digit(#[trigger] digits[i]),
    ensures
        decimal_value(digits) >= 0,
    decreases digits.len(),
{
    if digits.len() > 0 {
        assert(is_digit(digits[digits.len() - 1]));
        lemma_digits_are_not_negative(digits.drop_last());
    }
}

/// A device id that is made of a UUID has all of its characters in their order but the hyphens and
/// the white space around it; one that was stored has all but the white space around it. The
/// observer's is this computer's with three letters behind it.
pub proof fn lemma_ids_meaning(text: Seq<char>) -> (bounds: (int, int))
    ensures
        0 <= bounds.0 <= bounds.1 <= text.len(),
        bounds.0 < bounds.1 ==> !is_white_space(text[bounds.0]) && !is_white_space(
            text[bounds.1 - 1],
        ),
        forall|i: int|
            0 <= i < bounds.0 || bounds.1 <= i < text.len() ==> is_white_space(#[trigger] text[i]),
        stored_id(text) == text.subrange(bounds.0, bounds.1),
        made_id(text) == text.subrange(bounds.0, bounds.1).filter(|c: char| c != '-'),
        observer_of(text) == text.push('o').push('b').push('s'),
{
    reveal_strlit("obs");
    assert(observer_of(text) =~= text.push('o').push('b').push('s'));
    lemma_trimmed_meaning(text)
}

/// Hyphens drop out of a device id one by one: what is made of two texts in a row is what is made
/// of each, where neither has white space at an end.
pub proof fn lemma_made_id_by_parts(a: Seq<char>, b: Seq<char>, c: char)
    requires
        a.len() > 0 && !is_white_space(a.first()) && !is_white_space(a.last()),
        b.len() > 0 && !is_white_space(b.first()) && !is_white_space(b.last()),
        !is_white_space(c),
    ensures
        made_id(a + b) == made_id(a) + made_id(b),
        made_id(seq![c]) == if c == '-' {
            Seq::empty()
        } else {
            seq![c]
        },
{
    let kept = |x: char| x != '-';
    assert((a + b).first() == a.first() && (a + b).last() == b.last());
    Seq::filter_distributes_over_add(a, b, kept);
    reveal(Seq::filter);
    assert(seq![c].drop_last() =~= Seq::empty());
    assert(Seq::<char>::empty().filter(kept) =~= Seq::empty());
    assert(made_id(seq![c]) =~= if c == '-' {
        Seq::empty()
    } else {
        seq![c]
    });
}

/// Lower case changes the letters from `A` to `Z` into those from `a` to `z`, one for one.
pub proof fn lemma_ascii_lowercase_meaning(s: Seq<char>, i: int)
    requires
        0 <= i < s.len(),
    ensures
        ascii_lowercased(s).len() == s.len(),
        'A' <= s[i] <= 'Z' ==> ascii_lowercased(s)[i] as int - 'a' as int == s[i] as int
            - 'A' as int,
        !('A' <= s[i] <= 'Z') ==> ascii_lowercased(s)[i] == s[i],
{
}

} // verus!
