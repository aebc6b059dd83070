//! Facts about texts that the laws of the library build on.
use vstd::prelude::*;
use crate::text;

verus! {

/// A decimal notation is made of digits and reads back as its number.
pub proof fn lemma_decimal_digits(n: nat)
    ensures
        text::is_digits(text::decimal(n)),
        text::digits_value(text::decimal(n)) == n,
    decreases n,
{
    if n < 10 {
        let s = text::decimal(n);
        assert(s =~= seq![text::digit_char(n as int)]);
        assert(s.drop_last() =~= Seq::<char>::empty());
        assert(text::digits_value(s.drop_last()) == 0);
    } else {
        lemma_decimal_digits(n / 10);
        let s = text::decimal(n);
        assert(s.drop_last() =~= text::decimal(n / 10));
        assert forall|i: int| 0 <= i < s.len() implies text::is_digit(#[trigger] s[i]) by {
            if i < s.len() - 1 {
                assert(s[i] == text::decimal(n / 10)[i]);
            }
        }
    }
}

/// Writing a natural number in decimal and reading it gives the number back.
pub proof fn law_decimal_round_trip(n: nat, max: nat)
    requires
        n <= max,
    ensures
        text::parsed_nat(text::decimal(n), max) == Some(n),
{
    lemma_decimal_digits(n);
}

/// Writing a 64-bit signed integer in decimal and reading it gives the integer back.
pub proof fn law_signed_decimal_round_trip(i: i64)
    ensures
        text::parsed_i64(text::decimal_int(i as int)) == Some(i as int),
{
    if i < 0 {
        let n = (-(i as int)) as nat;
        lemma_decimal_digits(n);
        assert(text::decimal_int(i as int).drop_first() =~= text::decimal(n));
    } else {
        lemma_decimal_digits(i as nat);
    }
}

/// Lower case is reached in one step.
pub proof fn law_lower_idempotent(s: Seq<char>)
    ensures
        text::lower(text::lower(s)) == text::lower(s),
{
    assert(text::lower(text::lower(s)) =~= text::lower(s));
}

/// A text without white space at its ends is left alone by trimming.
pub proof fn lemma_trimmed_of_solid(s: Seq<char>)
    requires
        s.len() > 0 ==> !text::is_white_space(s[0]) && !text::is_white_space(s.last()),
    ensures
        text::trimmed(s) == s,
{
}

/// What is left of a text behind the white space starts with something else.
pub proof fn lemma_trimmed_start(s: Seq<char>)
    ensures
        text::trimmed_start(s).len() > 0 ==> !text::is_white_space(text::trimmed_start(s)[0]),
        exists|n: int| 0 <= n <= s.len() && text::trimmed_start(s) == #[trigger] s.skip(n),
    decreases s.len(),
{
    if s.len() > 0 && text::is_white_space(s[0]) {
        lemma_trimmed_start(s.drop_first());
        let n = choose|n: int| 0 <= n <= s.drop_first().len() && text::trimmed_start(s.drop_first()) == #[trigger] s.drop_first().skip(n);
        assert(s.drop_first().skip(n) =~= s.skip(n + 1));
    } else {
        assert(s.skip(0) =~= s);
    }
}

/// What is left of a text in front of the white space ends with something else.
pub proof fn lemma_trimmed_end(s: Seq<char>)
    ensures
        text::trimmed_end(s).len() > 0 ==> !text::is_white_space(text::trimmed_end(s).last()),
        exists|n: int| 0 <= n <= s.len() && text::trimmed_end(s) == #[trigger] s.take(n),
    decreases s.len(),
{
    if s.len() > 0 && text::is_white_space(s.last()) {
        lemma_trimmed_end(s.drop_last());
        let n = choose|n: int| 0 <= n <= s.drop_last().len() && text::trimmed_end(s.drop_last()) == #[trigger] s.drop_last().take(n);
        assert(s.drop_last().take(n) =~= s.take(n));
    } else {
        assert(s.take(s.len() as int) =~= s);
    }
}

/// A trimmed text has no white space at its ends.
pub proof fn lemma_trimmed_solid(s: Seq<char>)
    ensures
        text::trimmed(s).len() > 0 ==> !text::is_white_space(text::trimmed(s)[0]) && !text::is_white_space(text::trimmed(s).last()),
{
    lemma_trimmed_start(s);
    lemma_trimmed_end(text::trimmed_start(s));
}

/// Trimming twice is trimming once.
pub proof fn law_trimmed_idempotent(s: Seq<char>)
    ensures
        text::trimmed(text::trimmed(s)) == text::trimmed(s),
{
    lemma_trimmed_solid(s);
    lemma_trimmed_of_solid(text::trimmed(s));
}

/// Case folding keeps white space and nothing else white.
pub proof fn lemma_lower_solid(s: Seq<char>)
    requires
        s.len() > 0 ==> !text::is_white_space(s[0]) && !text::is_white_space(s.last()),
    ensures
        text::lower(s).len() > 0 ==> !text::is_white_space(text::lower(s)[0]) && !text::is_white_space(text::lower(s).last()),
{
}

/// A text has one piece at least, and its pieces never hold the separator.
pub proof fn lemma_pieces(s: Seq<char>, separator: char)
    ensures
        text::pieces(s, separator).len() >= 1,
        forall|i: int| 0 <= i < text::pieces(s, separator).len() ==> !(#[trigger] text::pieces(s, separator)[i]).contains(separator),
    decreases s.len(),
{
    if s.len() > 0 {
        lemma_pieces(s.drop_last(), separator);
        let before = text::pieces(s.drop_last(), separator);
        let after = text::pieces(s, separator);
        assert forall|i: int| 0 <= i < after.len() implies !(#[trigger] after[i]).contains(separator) by {
            if i < before.len() - 1 {
                assert(after[i] == before[i]);
            } else if s.last() != separator {
                assert(!before.last().contains(separator));
                assert(after[i] == before.last().push(s.last()));
            } else if i == before.len() - 1 {
                assert(after[i] == before[i]);
            }
        }
    }
}

/// Splitting what was put behind a text that ends in no separator continues its last piece.
pub proof fn lemma_pieces_append(s: Seq<char>, tail: Seq<char>, separator: char)
    requires
        !tail.contains(separator),
    ensures
        text::pieces(s + tail, separator) == text::pieces(s, separator).drop_last().push(
            text::pieces(s, separator).last() + tail,
        ),
    decreases tail.len(),
{
    lemma_pieces(s, separator);
    if tail.len() == 0 {
        assert(s + tail =~= s);
        assert(text::pieces(s, separator).last() + tail =~= text::pieces(s, separator).last());
        assert(text::pieces(s, separator).drop_last().push(text::pieces(s, separator).last()) =~= text::pieces(s, separator));
    } else {
        let shorter = tail.drop_last();
        assert(tail.contains(tail.last()));
        assert(!shorter.contains(separator)) by {
            if shorter.contains(separator) {
                let i = choose|i: int| 0 <= i < shorter.len() && shorter[i] == separator;
                assert(tail[i] == separator);
            }
        }
        lemma_pieces_append(s, shorter, separator);
        assert((s + tail).drop_last() =~= s + shorter);
        assert((text::pieces(s, separator).last() + shorter).push(tail.last()) =~= text::pieces(s, separator).last() + tail);
        assert(text::pieces(s + tail, separator) =~= text::pieces(s, separator).drop_last().push(
            text::pieces(s, separator).last() + tail,
        ));
    }
}

/// Parts that do not hold the separator come back when what was joined is split.
pub proof fn law_split_of_join(parts: Seq<Seq<char>>, separator: char)
    requires
        parts.len() > 0,
        forall|i: int| 0 <= i < parts.len() ==> !(#[trigger] parts[i]).contains(separator),
    ensures
        text::pieces(text::joined(parts, seq![separator]), separator) == parts,
    decreases parts.len(),
{
    if parts.len() == 1 {
        let empty = Seq::<char>::empty();
        assert(empty + parts[0] =~= parts[0]);
        lemma_pieces_append(empty, parts[0], separator);
        assert(text::pieces(empty, separator).last() + parts[0] =~= parts[0]);
        assert(text::pieces(parts[0], separator) =~= parts);
    } else {
        let front = parts.drop_last();
        law_split_of_join(front, separator);
        let head = text::joined(front, seq![separator]) + seq![separator];
        assert(head.drop_last() =~= text::joined(front, seq![separator]));
        assert(text::pieces(head, separator) == front.push(Seq::<char>::empty()));
        lemma_pieces_append(head, parts.last(), separator);
        assert(Seq::<char>::empty() + parts.last() =~= parts.last());
        assert(text::pieces(head, separator).drop_last() =~= front);
        assert(front.push(parts.last()) =~= parts);
    }
}

/// The bytes of two texts one after the other are the bytes of the two.
pub proof fn lemma_encoded_append(a: Seq<char>, b: Seq<char>)
    ensures
        vstd::utf8::encode_utf8(a + b) == vstd::utf8::encode_utf8(a) + vstd::utf8::encode_utf8(b),
    decreases a.len(),
{
    if a.len() == 0 {
        assert(a + b =~= b);
        assert(vstd::utf8::encode_utf8(a) =~= Seq::<u8>::empty());
        assert(vstd::utf8::encode_utf8(a) + vstd::utf8::encode_utf8(b) =~= vstd::utf8::encode_utf8(
            b,
        ));
    } else {
        lemma_encoded_append(a.drop_first(), b);
        assert((a + b).drop_first() =~= a.drop_first() + b);
        assert((a + b)[0] == a[0]);
        let first = vstd::utf8::encode_scalar(a[0] as u32);
        assert(first + (vstd::utf8::encode_utf8(a.drop_first()) + vstd::utf8::encode_utf8(b)) =~= (
        first + vstd::utf8::encode_utf8(a.drop_first())) + vstd::utf8::encode_utf8(b));
    }
}

/// A character more takes a byte more at least.
pub proof fn lemma_bytes_grow(s: Seq<char>, more: Seq<char>)
    requires
        more.len() > 0,
    ensures
        text::byte_len(s + more) > text::byte_len(s),
{
    lemma_encoded_append(s, more);
    assert(vstd::utf8::encode_scalar(more[0] as u32).len() > 0);
}

/// A text without the separator is its own only piece.
pub proof fn lemma_single_piece(s: Seq<char>, separator: char)
    requires
        !s.contains(separator),
    ensures
        text::pieces(s, separator) == seq![s],
{
    law_split_of_join(seq![s], separator);
}

/// A character other than the separator stands in one of the pieces.
pub proof fn lemma_chars_of_pieces(s: Seq<char>, separator: char, c: char)
    requires
        s.contains(c),
        c != separator,
    ensures
        exists|j: int| 0 <= j < text::pieces(s, separator).len() && (#[trigger] text::pieces(s, separator)[j]).contains(c),
    decreases s.len(),
{
    let before = text::pieces(s.drop_last(), separator);
    let after = text::pieces(s, separator);
    lemma_pieces(s.drop_last(), separator);
    if s.last() == c {
        let last = after[after.len() - 1];
        assert(last[last.len() - 1] == c);
        assert(last.contains(c));
    } else {
        let i = choose|i: int| 0 <= i < s.len() && s[i] == c;
        assert(s.drop_last()[i] == c);
        lemma_chars_of_pieces(s.drop_last(), separator, c);
        let j = choose|j: int| 0 <= j < before.len() && (#[trigger] before[j]).contains(c);
        let k = choose|k: int| 0 <= k < before[j].len() && before[j][k] == c;
        assert(after[j][k] == c);
        assert(after[j].contains(c));
    }
}

/// The first piece of a text is what stands before the first separator.
pub proof fn lemma_first_piece(first: Seq<char>, rest: Seq<char>, separator: char)
    requires
        !first.contains(separator),
    ensures
        text::pieces(first + seq![separator] + rest, separator)[0] == first,
        text::pieces(first + seq![separator] + rest, separator).len() >= 2,
    decreases rest.len(),
{
    let whole = first + seq![separator] + rest;
    if rest.len() == 0 {
        lemma_single_piece(first, separator);
        assert(whole.drop_last() =~= first);
        assert(whole.last() == separator);
    } else {
        lemma_first_piece(first, rest.drop_last(), separator);
        assert(whole.drop_last() =~= first + seq![separator] + rest.drop_last());
    }
}

} // verus!
