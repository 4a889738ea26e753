//! What the text operations give back, told by how their results relate to what
//! went in.

use crate::text::{
    ascii_lower, decimal, decimal_text, digit, eq_ignore_ascii_case, is_white_space, pieces, split,
    texts, trim, trim_back, trim_front,
};
use vstd::prelude::*;

verus! {

/// The same character, or the same ASCII letter in the other case.
pub open spec fn alike(a: char, b: char) -> bool {
    ||| a == b
    ||| 0x41 <= a as u32 <= 0x5a && b as u32 == a as u32 + 0x20
    ||| 0x41 <= b as u32 <= 0x5a && a as u32 == b as u32 + 0x20
}

proof fn lemma_alike(a: char, b: char)
    ensures
        alike(a, b) <==> ascii_lower(a) == ascii_lower(b),
{
}

/// Texts of the same length whose characters are alike, one by one.
pub open spec fn texts_alike(a: Seq<char>, b: Seq<char>) -> bool {
    &&& a.len() == b.len()
    &&& forall|i: int| 0 <= i < a.len() ==> alike(#[trigger] a[i], b[i])
}

/// Comparing without case takes two texts for the same exactly if they differ in
/// the case of ASCII letters at most.
pub proof fn law_only_the_case_of_ascii_letters_is_ignored(a: &str, b: &str, res: bool)
    requires
        call_ensures(eq_ignore_ascii_case, (a, b), res),
    ensures
        res <==> texts_alike(a@, b@),
{
    lemma_texts_alike(a@, b@);
}

/// The library's comparison and the one by alike characters agree.
pub proof fn lemma_texts_alike(a: Seq<char>, b: Seq<char>)
    ensures
        crate::text::same_ignoring_ascii_case(a, b) <==> texts_alike(a, b),
{
    assert forall|i: int| 0 <= i < a.len() implies (alike(#[trigger] a[i], b[i]) <==> ascii_lower(
        a[i],
    ) == ascii_lower(b[i])) by {
        lemma_alike(a[i], b[i]);
    }
}

/// What is trimmed away is white space, at both ends of the text, and what is left
/// has none there.
pub proof fn law_trimming_takes_white_space_at_the_ends(s: &str, res: &str)
    requires
        call_ensures(trim, (s,), res),
    ensures
        exists|from: int, to: int|
            0 <= from <= to <= s@.len() && res@ == #[trigger] s@.subrange(from, to) && (forall|i: int|
                0 <= i < from || to <= i < s@.len() ==> is_white_space(#[trigger] s@[i])),
        res@.len() > 0 ==> !is_white_space(res@.first()) && !is_white_space(res@.last()),
{
    let front = trim_front(s@);
    lemma_front(s@);
    let from = s@.len() - front.len();
    lemma_back(front);
    let to = from + res@.len();
    assert(s@.subrange(from, to) =~= res@) by {
        assert forall|i: int| 0 <= i < res@.len() implies s@.subrange(from, to)[i] == res@[i] by {
            assert(res@[i] == front[i]);
            assert(front[i] == s@[from + i]);
        }
    }
    assert forall|i: int| 0 <= i < from || to <= i < s@.len() implies is_white_space(
        #[trigger] s@[i],
    ) by {
        if to <= i {
            assert(front[i - from] == s@[i]);
        }
    }
    crate::text::lemma_trimmed_is_solid(s@);
}

proof fn lemma_front(s: Seq<char>)
    ensures
        trim_front(s).len() <= s.len(),
        trim_front(s) == s.subrange(s.len() - trim_front(s).len(), s.len() as int),
        forall|i: int| 0 <= i < s.len() - trim_front(s).len() ==> is_white_space(#[trigger] s[i]),
    decreases s.len(),
{
    if s.len() > 0 && is_white_space(s.first()) {
        let rest = s.drop_first();
        lemma_front(rest);
        let k = rest.len() - trim_front(rest).len();
        assert(rest.subrange(k, rest.len() as int) =~= s.subrange(k + 1, s.len() as int));
        assert forall|i: int| 0 <= i < k + 1 implies is_white_space(#[trigger] s[i]) by {
            if i > 0 {
                assert(rest[i - 1] == s[i]);
            }
        }
    } else {
        assert(s.subrange(0, s.len() as int) =~= s);
    }
}

proof fn lemma_back(s: Seq<char>)
    ensures
        trim_back(s).len() <= s.len(),
        trim_back(s) == s.subrange(0, trim_back(s).len() as int),
        forall|i: int| trim_back(s).len() <= i < s.len() ==> is_white_space(#[trigger] s[i]),
    decreases s.len(),
{
    if s.len() > 0 && is_white_space(s.last()) {
        let rest = s.drop_last();
        lemma_back(rest);
        assert(rest.subrange(0, trim_back(rest).len() as int) =~= s.subrange(
            0,
            trim_back(rest).len() as int,
        ));
        assert forall|i: int| trim_back(s).len() <= i < s.len() implies is_white_space(
            #[trigger] s[i],
        ) by {
            if i < rest.len() {
                assert(rest[i] == s[i]);
            }
        }
    } else {
        assert(s.subrange(0, s.len() as int) =~= s);
    }
}

/// The parts with `sep` between them.
pub open spec fn joined(parts: Seq<Seq<char>>, sep: char) -> Seq<char>
    decreases parts.len(),
{
    if parts.len() == 0 {
        Seq::empty()
    } else if parts.len() == 1 {
        parts[0]
    } else {
        joined(parts.drop_last(), sep).push(sep) + parts.last()
    }
}

/// Splitting takes a text apart at every separator and nowhere else: no part holds
/// one, and the parts with separators between them are the text.
pub proof fn law_split_text_joins_again(s: &str, sep: char, res: Vec<String>)
    requires
        call_ensures(split, (s, sep), res),
    ensures
        res@.len() > 0,
        joined(texts(res@), sep) == s@,
        forall|i: int, j: int|
            0 <= i < res@.len() && 0 <= j < (#[trigger] res@[i])@.len() ==> #[trigger] res@[i]@[j]
                != sep,
{
    lemma_pieces(s@, sep);
    assert forall|i: int, j: int|
        0 <= i < res@.len() && 0 <= j < (#[trigger] res@[i])@.len() implies #[trigger] res@[i]@[j]
        != sep by {
        assert(texts(res@)[i] == res@[i]@);
        assert(pieces(s@, sep)[i][j] != sep);
    }
}

proof fn lemma_pieces(s: Seq<char>, sep: char)
    ensures
        pieces(s, sep).len() > 0,
        joined(pieces(s, sep), sep) == s,
        forall|i: int, j: int|
            0 <= i < pieces(s, sep).len() && 0 <= j < pieces(s, sep)[i].len() ==> #[trigger] pieces(
                s,
                sep,
            )[i][j] != sep,
    decreases s.len(),
{
    let now = pieces(s, sep);
    if s.len() == 0 {
        assert(joined(now, sep) =~= s);
    } else {
        let before = pieces(s.drop_last(), sep);
        lemma_pieces(s.drop_last(), sep);
        if s.last() == sep {
            assert(now.drop_last() =~= before);
            assert(joined(now, sep) =~= s.drop_last().push(sep));
            assert(s.drop_last().push(s.last()) =~= s);
            assert forall|i: int, j: int|
                0 <= i < now.len() && 0 <= j < now[i].len() implies #[trigger] now[i][j] != sep by {
                assert(before[i][j] != sep);
            }
        } else {
            assert(now.drop_last() =~= before.drop_last());
            assert(now.last() == before.last().push(s.last()));
            if before.len() == 1 {
                assert(now[0] == before[0].push(s.last()));
            }
            assert(joined(now, sep) =~= joined(before, sep).push(s.last()));
            assert(s.drop_last().push(s.last()) =~= s);
            assert forall|i: int, j: int|
                0 <= i < now.len() && 0 <= j < now[i].len() implies #[trigger] now[i][j] != sep by {
                if i < before.len() - 1 {
                    assert(now[i] == before[i]);
                    assert(before[i][j] != sep);
                } else if j < before.last().len() {
                    assert(now[i][j] == before[i][j]);
                    assert(before[i][j] != sep);
                }
            }
        }
    }
}

/// The number a text of decimal digits stands for.
pub open spec fn number_in(text: Seq<char>) -> int
    decreases text.len(),
{
    if text.len() == 0 {
        0
    } else {
        number_in(text.drop_last()) * 10 + (text.last() as u32 - 0x30)
    }
}

/// A number is written with digits only, without a leading zero, and reads back as
/// that number.
pub proof fn law_written_numbers_read_back(n: u64, res: String)
    requires
        call_ensures(decimal_text, (n,), res),
    ensures
        number_in(res@) == n,
        res@.len() > 0,
        forall|i: int| 0 <= i < res@.len() ==> 0x30 <= #[trigger] res@[i] as u32 <= 0x39,
        n > 0 ==> res@[0] != '0',
{
    lemma_decimal(n as nat);
}

/// Decimal notation reads back as the number it was made of.
pub proof fn lemma_decimal(n: nat)
    ensures
        number_in(decimal(n)) == n,
        decimal(n).len() > 0,
        forall|i: int| 0 <= i < decimal(n).len() ==> 0x30 <= #[trigger] decimal(n)[i] as u32 <= 0x39,
        n > 0 ==> decimal(n)[0] != '0',
    decreases n,
{
    reveal_with_fuel(number_in, 2);
    if n < 10 {
        assert(decimal(n).drop_last() =~= Seq::<char>::empty());
        assert(digit(n) as u32 == 0x30 + n);
    } else {
        lemma_decimal(n / 10);
        assert(decimal(n).drop_last() =~= decimal(n / 10));
        assert(digit(n % 10) as u32 == 0x30 + n % 10);
    }
}

} // verus!
