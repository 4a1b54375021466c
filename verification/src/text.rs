//! Text building blocks: decimal numerals and single characters.

use vstd::prelude::*;

verus! {

/// `String::push` puts one character behind the string.
pub assume_specification[ String::push ](string: &mut String, ch: char)
    ensures
        final(string)@ == old(string)@.push(ch),
;

/// The character that writes the digit `d`.
pub open spec fn digit(d: int) -> char {
    (48 + d) as char
}

/// The decimal numeral of `n`, without leading zeros.
pub open spec fn decimal(n: int) -> Seq<char>
    decreases n,
{
    if n < 10 {
        seq![digit(n)]
    } else {
        decimal(n / 10).push(digit(n % 10))
    }
}

/// The decimal numeral of `n`, with a minus sign before a negative number.
pub open spec fn signed_decimal(n: int) -> Seq<char> {
    if n < 0 {
        seq!['-'] + decimal(-n)
    } else {
        decimal(n)
    }
}

/// `text` with spaces before it, up to a length of `width`.
pub open spec fn right_aligned(text: Seq<char>, width: int) -> Seq<char>
    decreases width - text.len(),
{
    if text.len() >= width {
        text
    } else {
        right_aligned(seq![' '] + text, width)
    }
}

/// Whether two texts are the same.
pub fn same_text(a: &str, b: &str) -> (same: bool)
    ensures
        same == (a@ == b@),
{
    a.to_owned() == b.to_owned()
}

/// Writes the decimal numeral of `n` behind `out`.
pub fn push_decimal(out: &mut String, n: u64)
    ensures
        final(out)@ == old(out)@ + decimal(n as int),
    decreases n,
{
    if n >= 10 {
        push_decimal(out, n / 10);
    }
    let last: u8 = (n % 10) as u8;
    out.push((48u8 + last) as char);
    assert(out@ =~= old(out)@ + decimal(n as int));
}

/// Writes the decimal numeral of `n` behind `out`, with its sign.
pub fn push_signed_decimal(out: &mut String, n: i64)
    ensures
        final(out)@ == old(out)@ + signed_decimal(n as int),
{
    if n >= 0 {
        push_decimal(out, n as u64);
    } else {
        out.push('-');
        let magnitude: u64 = if n == i64::MIN {
            0x8000_0000_0000_0000
        } else {
            (-n) as u64
        };
        push_decimal(out, magnitude);
        assert(out@ =~= old(out)@ + signed_decimal(n as int));
    }
}

/// `text` with every line end as one line feed: a carriage return counts as
/// one, and a line feed directly behind it adds nothing.
pub open spec fn normalized(text: Seq<char>) -> Seq<char>
    decreases text.len(),
{
    if text.len() == 0 {
        text
    } else {
        let before = normalized(text.drop_last());
        if text.last() == '\r' {
            before.push('\n')
        } else if text.last() == '\n' && text.len() > 1 && text[text.len() - 2] == '\r' {
            before
        } else {
            before.push(text.last())
        }
    }
}

/// `text` with every line end as one line feed.
pub fn normalize_newlines(text: &str) -> (result: String)
    ensures
        result@ == normalized(text@),
{
    let mut result = String::new();
    let mut after_return = false;
    for c in chars: text.chars()
        invariant
            chars.seq() == text@,
            result@ == normalized(text@.take(chars.index() as int)),
            after_return == (chars.index() > 0 && text@[chars.index() - 1] == '\r'),
    {
        proof {
            let i = chars.index() as int;
            assert(text@.take(i + 1).drop_last() =~= text@.take(i));
            assert(text@.take(i + 1).last() == c);
            if i > 0 {
                assert(text@.take(i + 1)[i - 1] == text@[i - 1]);
            }
        }
        if c == '\r' {
            result.push('\n');
        } else if !(c == '\n' && after_return) {
            result.push(c);
        }
        after_return = c == '\r';
    }
    assert(text@.take(text@.len() as int) =~= text@);
    result
}

/// Normalized text holds no carriage return.
pub proof fn law_normalized_has_no_carriage_return(text: Seq<char>)
    ensures
        !normalized(text).contains('\r'),
    decreases text.len(),
{
    if text.len() > 0 {
        law_normalized_has_no_carriage_return(text.drop_last());
        let before = normalized(text.drop_last());
        assert forall|i: int| 0 <= i < normalized(text).len() implies normalized(text)[i]
            != '\r' by {
            if i < before.len() {
                assert(before.contains(before[i]));
            }
        }
    }
}

/// Text without carriage returns is normalized already.
pub proof fn law_text_without_carriage_return_is_kept(text: Seq<char>)
    requires
        !text.contains('\r'),
    ensures
        normalized(text) == text,
    decreases text.len(),
{
    if text.len() > 0 {
        let rest = text.drop_last();
        assert forall|i: int| 0 <= i < rest.len() implies rest[i] != '\r' by {
            assert(text.contains(text[i]));
        }
        law_text_without_carriage_return_is_kept(rest);
        assert(text.contains(text.last()));
        if text.len() > 1 {
            assert(text.contains(text[text.len() - 2]));
        }
        assert(rest.push(text.last()) =~= text);
    }
}

/// Normalization works piece by piece: a text cut in two anywhere but inside a
/// carriage return with its line feed is normalized by normalizing both parts.
pub proof fn law_normalization_is_piecewise(a: Seq<char>, b: Seq<char>)
    requires
        a.len() == 0 || b.len() == 0 || a.last() != '\r' || b[0] != '\n',
    ensures
        normalized(a + b) == normalized(a) + normalized(b),
    decreases b.len(),
{
    if b.len() == 0 {
        assert(a + b =~= a);
        assert(normalized(a) + normalized(b) =~= normalized(a));
    } else {
        let rest = b.drop_last();
        law_normalization_is_piecewise(a, rest);
        assert((a + b).drop_last() =~= a + rest);
        assert((a + b).last() == b.last());
        if b.len() > 1 {
            assert((a + b)[(a + b).len() - 2] == b[b.len() - 2]);
        } else if a.len() > 0 {
            assert((a + b)[(a + b).len() - 2] == a.last());
        }
        assert(normalized(a + b) =~= normalized(a) + normalized(b));
    }
}

/// What the pieces of a text are normalized to: a carriage return with its
/// line feed, a carriage return alone and a line feed alone are one line feed
/// each, and every other character is kept.
pub proof fn law_pieces_of_text_are_normalized(c: char)
    requires
        c != '\r',
    ensures
        normalized(Seq::empty()) == Seq::<char>::empty(),
        normalized(seq![c]) == seq![c],
        normalized(seq!['\r']) == seq!['\n'],
        normalized(seq!['\r', '\n']) == seq!['\n'],
{
    reveal_with_fuel(normalized, 3);
    assert(seq!['\r', '\n'].drop_last() =~= seq!['\r']);
    assert(seq!['\r'].drop_last() =~= Seq::<char>::empty());
    assert(seq![c].drop_last() =~= Seq::<char>::empty());
    assert(Seq::<char>::empty().push('\n') =~= seq!['\n']);
    assert(Seq::<char>::empty().push(c) =~= seq![c]);
}

/// `text` with `end` in place of every line feed.
pub open spec fn with_line_ends(text: Seq<char>, end: Seq<char>) -> Seq<char>
    decreases text.len(),
{
    if text.len() == 0 {
        text
    } else {
        with_line_ends(text.drop_last(), end) + if text.last() == '\n' {
            end
        } else {
            seq![text.last()]
        }
    }
}

/// No line end is lost or added: a text whose line feeds were turned into
/// carriage returns, with line feeds or without, is normalized back to what it
/// was, blank lines and all.
pub proof fn law_line_ends_are_restored(text: Seq<char>, end: Seq<char>)
    requires
        !text.contains('\r'),
        end == seq!['\r', '\n'] || end == seq!['\r'],
    ensures
        normalized(with_line_ends(text, end)) == text,
    decreases text.len(),
{
    if text.len() == 0 {
        law_pieces_of_text_are_normalized('a');
        assert(with_line_ends(text, end) =~= Seq::<char>::empty());
        assert(text =~= Seq::<char>::empty());
    } else {
        let rest = text.drop_last();
        assert forall|i: int| 0 <= i < rest.len() implies rest[i] != '\r' by {
            assert(text.contains(text[i]));
        }
        assert(text.contains(text.last()));
        law_line_ends_are_restored(rest, end);
        let piece = if text.last() == '\n' {
            end
        } else {
            seq![text.last()]
        };
        law_pieces_of_text_are_normalized(text.last());
        assert(piece[0] != '\n');
        law_normalization_is_piecewise(with_line_ends(rest, end), piece);
        assert(normalized(piece) == seq![text.last()]);
        assert(rest + seq![text.last()] =~= text);
    }
}

/// The number that a row of decimal digits stands for.
pub open spec fn numeral_value(digits: Seq<char>) -> int
    decreases digits.len(),
{
    if digits.len() == 0 {
        0
    } else {
        10 * numeral_value(digits.drop_last()) + (digits.last() as int - '0' as int)
    }
}

/// A decimal numeral is made of digits, is read back as its number, and has
/// no leading zero.
pub proof fn law_numerals_are_read_back(n: int)
    requires
        0 <= n,
    ensures
        decimal(n).len() > 0,
        forall|i: int|
            0 <= i < decimal(n).len() ==> '0' as int <= (#[trigger] decimal(n)[i]) as int
                && decimal(n)[i] as int <= '9' as int,
        numeral_value(decimal(n)) == n,
        n > 0 ==> decimal(n)[0] != '0',
    decreases n,
{
    if n >= 10 {
        law_numerals_are_read_back(n / 10);
        assert(decimal(n).drop_last() =~= decimal(n / 10));
    } else {
        reveal_with_fuel(numeral_value, 2);
        assert(decimal(n).drop_last() =~= Seq::<char>::empty());
    }
}

/// A signed numeral is that of the magnitude, with a minus sign before it for
/// the negative numbers alone.
pub proof fn law_signed_numerals_are_read_back(n: int)
    ensures
        n >= 0 ==> numeral_value(signed_decimal(n)) == n && signed_decimal(n)[0] != '-',
        n < 0 ==> signed_decimal(n)[0] == '-' && numeral_value(
            signed_decimal(n).subrange(1, signed_decimal(n).len() as int),
        ) == -n,
{
    if n >= 0 {
        law_numerals_are_read_back(n);
    } else {
        law_numerals_are_read_back(-n);
        assert(signed_decimal(n).subrange(1, signed_decimal(n).len() as int) =~= decimal(-n));
    }
}

/// Alignment puts spaces before a text that is too short, and nothing else.
pub proof fn law_alignment_only_adds_spaces(text: Seq<char>, width: int)
    ensures
        ({
            let aligned = right_aligned(text, width);
            let added = aligned.len() - text.len();
            &&& aligned.len() == if text.len() < width {
                width
            } else {
                text.len() as int
            }
            &&& aligned.subrange(added, aligned.len() as int) == text
            &&& forall|i: int| 0 <= i < added ==> aligned[i] == ' '
        }),
    decreases width - text.len(),
{
    let aligned = right_aligned(text, width);
    let added = aligned.len() - text.len();
    if text.len() < width {
        let longer = seq![' '] + text;
        law_alignment_only_adds_spaces(longer, width);
        assert(aligned.subrange(added - 1, aligned.len() as int) == longer);
        assert(aligned.subrange(added, aligned.len() as int) =~= longer.subrange(
            1,
            longer.len() as int,
        ));
        assert(longer.subrange(1, longer.len() as int) =~= text);
        assert(aligned[added - 1] == longer[0]) by {
            assert(aligned.subrange(added - 1, aligned.len() as int)[0] == aligned[added - 1]);
        }
    } else {
        assert(aligned.subrange(0, aligned.len() as int) =~= text);
    }
}

} // verus!
