//! What the operations on text give, told by how a text is put together.

use crate::number;
use crate::shell;
use crate::text;
use vstd::prelude::*;

verus! {

/// Whether all of `s` is white space.
pub open spec fn all_white(s: Seq<char>) -> bool {
    forall|i: int| 0 <= i < s.len() ==> text::is_white_space(#[trigger] s[i])
}

/// Whether none of `s` is white space.
pub open spec fn none_white(s: Seq<char>) -> bool {
    forall|i: int| 0 <= i < s.len() ==> !text::is_white_space(#[trigger] s[i])
}

/// Whether `c` does not occur in `s`.
pub open spec fn lacks(s: Seq<char>, c: char) -> bool {
    forall|i: int| 0 <= i < s.len() ==> #[trigger] s[i] != c
}

/// White space in front is trimmed.
proof fn lemma_trimmed_front(white: Seq<char>, s: Seq<char>)
    requires
        all_white(white),
        s.len() > 0 ==> !text::is_white_space(s[0]),
    ensures
        text::trimmed_front(white + s) == s,
    decreases white.len(),
{
    if white.len() == 0 {
        assert(white + s == s);
    } else {
        assert(text::is_white_space(white[0]));
        assert((white + s)[0] == white[0]);
        assert((white + s).skip(1) == white.skip(1) + s);
        assert forall|i: int| 0 <= i < white.skip(1).len() implies text::is_white_space(
            #[trigger] white.skip(1)[i],
        ) by {
            assert(white.skip(1)[i] == white[i + 1]);
        }
        lemma_trimmed_front(white.skip(1), s);
    }
}

/// White space at the back is trimmed.
proof fn lemma_trimmed_back(s: Seq<char>, white: Seq<char>)
    requires
        all_white(white),
        s.len() > 0 ==> !text::is_white_space(s.last()),
    ensures
        text::trimmed_back(s + white) == s,
    decreases white.len(),
{
    if white.len() == 0 {
        assert(s + white == s);
    } else {
        assert(text::is_white_space(white[white.len() - 1]));
        assert((s + white).last() == white.last());
        assert((s + white).drop_last() == s + white.drop_last());
        assert forall|i: int| 0 <= i < white.drop_last().len() implies text::is_white_space(
            #[trigger] white.drop_last()[i],
        ) by {
            assert(white.drop_last()[i] == white[i]);
        }
        lemma_trimmed_back(s, white.drop_last());
    }
}

/// Trimming takes the white space at both ends away, and nothing else.
pub proof fn law_trimmed(front: Seq<char>, inner: Seq<char>, back: Seq<char>)
    requires
        all_white(front),
        all_white(back),
        inner.len() > 0 ==> !text::is_white_space(inner[0]) && !text::is_white_space(
            inner.last(),
        ),
    ensures
        text::trimmed(front + inner + back) == inner,
{
    if inner.len() > 0 {
        assert(front + inner + back == front + (inner + back));
        assert((inner + back)[0] == inner[0]);
        lemma_trimmed_front(front, inner + back);
        lemma_trimmed_back(inner, back);
    } else {
        let all = front + inner + back;
        assert(all == all + inner);
        assert forall|i: int| 0 <= i < all.len() implies text::is_white_space(#[trigger] all[i]) by {
            if i < front.len() {
                assert(all[i] == front[i]);
            } else {
                assert(all[i] == back[i - front.len()]);
            }
        }
        lemma_trimmed_front(all, inner);
        lemma_trimmed_back(inner, Seq::empty());
        assert(inner + Seq::<char>::empty() == inner);
    }
}

/// Every text is white space, what trimming leaves, and white space; what is
/// left has none at its ends.
pub proof fn law_trimmed_is_inside(s: Seq<char>) -> (ends: (int, int))
    ensures
        0 <= ends.0 <= ends.1 <= s.len(),
        text::trimmed(s) == s.subrange(ends.0, ends.1),
        all_white(s.take(ends.0)),
        all_white(s.skip(ends.1)),
        text::trimmed(s).len() > 0 ==> !text::is_white_space(text::trimmed(s)[0])
            && !text::is_white_space(text::trimmed(s).last()),
{
    let from = front_white(s);
    let to = s.len() - back_white(s.skip(from as int));
    lemma_front_white(s);
    lemma_back_white(s.skip(from as int));
    assert(s == s.take(from as int) + s.subrange(from as int, to) + s.skip(to));
    let inner = s.subrange(from as int, to);
    assert forall|i: int| 0 <= i < s.skip(to).len() implies text::is_white_space(
        #[trigger] s.skip(to)[i],
    ) by {
        assert(s.skip(to)[i] == s.skip(from as int)[to - from + i]);
    }
    if inner.len() > 0 {
        assert(inner[0] == s[from as int]);
        assert(inner.last() == s.skip(from as int)[to - from - 1]);
    }
    law_trimmed(s.take(from as int), inner, s.skip(to));
    (from as int, to)
}

/// How much white space is in front.
spec fn front_white(s: Seq<char>) -> nat
    decreases s.len(),
{
    if s.len() > 0 && text::is_white_space(s[0]) {
        1 + front_white(s.skip(1))
    } else {
        0
    }
}

/// How much white space is at the back.
spec fn back_white(s: Seq<char>) -> nat
    decreases s.len(),
{
    if s.len() > 0 && text::is_white_space(s.last()) {
        1 + back_white(s.drop_last())
    } else {
        0
    }
}

proof fn lemma_front_white(s: Seq<char>)
    ensures
        front_white(s) <= s.len(),
        all_white(s.take(front_white(s) as int)),
        front_white(s) < s.len() ==> !text::is_white_space(s[front_white(s) as int]),
    decreases s.len(),
{
    if s.len() > 0 && text::is_white_space(s[0]) {
        lemma_front_white(s.skip(1));
        let n = front_white(s.skip(1)) as int;
        assert forall|i: int| 0 <= i < n + 1 implies text::is_white_space(
            #[trigger] s.take(n + 1)[i],
        ) by {
            if i > 0 {
                assert(s.take(n + 1)[i] == s.skip(1).take(n)[i - 1]);
            }
        }
    }
}

proof fn lemma_back_white(s: Seq<char>)
    ensures
        back_white(s) <= s.len(),
        forall|i: int|
            s.len() - back_white(s) <= i < s.len() ==> text::is_white_space(#[trigger] s[i]),
        back_white(s) < s.len() ==> !text::is_white_space(s[s.len() - back_white(s) - 1]),
    decreases s.len(),
{
    if s.len() > 0 && text::is_white_space(s.last()) {
        lemma_back_white(s.drop_last());
        assert forall|i: int| s.len() - back_white(s) <= i < s.len() implies text::is_white_space(
            #[trigger] s[i],
        ) by {
            if i < s.len() - 1 {
                assert(s[i] == s.drop_last()[i]);
            }
        }
    }
}

/// What comes before the first `c` is the text up to it.
proof fn lemma_place(head: Seq<char>, c: char, rest: Seq<char>)
    requires
        lacks(head, c),
    ensures
        text::first_place(head + seq![c] + rest, c) == head.len(),
        text::first_place(head, c) == head.len(),
{
    let s = head + seq![c] + rest;
    assert forall|i: int| 0 <= i < head.len() implies s[i] != c by {
        assert(s[i] == head[i]);
    }
    text::lemma_first_place_is(s, c, head.len() as int);
    text::lemma_first_place_is(head, c, head.len() as int);
}

/// The lines of a text are what stands before its line feeds, without the
/// carriage return there, and what stands behind the last one, if anything does.
pub proof fn law_lines(line: Seq<char>, rest: Seq<char>)
    requires
        lacks(line, '\n'),
    ensures
        text::lines_of(line + seq!['\n'] + rest) == seq![
            if line.len() > 0 && line.last() == '\r' {
                line.drop_last()
            } else {
                line
            },
        ] + text::lines_of(rest),
        line.len() > 0 ==> text::lines_of(line) == seq![line],
        text::lines_of(seq![]) == Seq::<Seq<char>>::empty(),
{
    lemma_place(line, '\n', rest);
    let s = line + seq!['\n'] + rest;
    assert(s.take(line.len() as int) == line);
    assert(s.skip(line.len() as int + 1) == rest);
}

/// A word is as long as it is until white space.
proof fn lemma_word(word: Seq<char>, rest: Seq<char>)
    requires
        none_white(word),
        rest.len() > 0 ==> text::is_white_space(rest[0]),
    ensures
        text::word_length(word + rest) == word.len(),
    decreases word.len(),
{
    if word.len() == 0 {
        assert(word + rest == rest);
    } else {
        assert(!text::is_white_space(word[0]));
        assert((word + rest)[0] == word[0]);
        assert((word + rest).skip(1) == word.skip(1) + rest);
        assert forall|i: int| 0 <= i < word.skip(1).len() implies !text::is_white_space(
            #[trigger] word.skip(1)[i],
        ) by {
            assert(word.skip(1)[i] == word[i + 1]);
        }
        lemma_word(word.skip(1), rest);
    }
}

/// The words of a text are what white space separates.
pub proof fn law_words(word: Seq<char>, white: char, rest: Seq<char>)
    requires
        word.len() > 0,
        none_white(word),
        text::is_white_space(white),
    ensures
        text::words_of(word + seq![white] + rest) == seq![word] + text::words_of(rest),
        text::words_of(seq![white] + rest) == text::words_of(rest),
        text::words_of(word) == seq![word],
        text::words_of(seq![]) == Seq::<Seq<char>>::empty(),
{
    let tail = seq![white] + rest;
    assert(tail[0] == white);
    assert(tail.skip(1) == rest);
    assert(!text::is_white_space(word[0]));
    let s = word + seq![white] + rest;
    assert(s == word + tail);
    assert(s[0] == word[0]);
    lemma_word(word, tail);
    assert(s.take(word.len() as int) == word);
    assert(s.skip(word.len() as int) == tail);
    assert(text::words_of(tail) == text::words_of(rest));
    assert(text::words_of(s) == seq![word] + text::words_of(tail));
    lemma_word(word, Seq::empty());
    assert(word + Seq::<char>::empty() == word);
    assert(word.take(word.len() as int) == word);
    assert(word.skip(word.len() as int) == Seq::<char>::empty());
    assert(seq![word] + text::words_of(seq![]) == seq![word]);
}

/// The pieces of a text are what a separator separates; the last of as many as
/// are wanted takes all that is left.
pub proof fn law_pieces(piece: Seq<char>, sep: char, rest: Seq<char>, most: nat)
    requires
        lacks(piece, sep),
    ensures
        most >= 2 ==> text::pieces_of(piece + seq![sep] + rest, sep, most) == seq![piece]
            + text::pieces_of(rest, sep, (most - 1) as nat),
        most >= 1 ==> text::pieces_of(piece, sep, most) == seq![piece],
        text::pieces_of(rest, sep, 1) == seq![rest],
        text::pieces_of(rest, sep, 0) == Seq::<Seq<char>>::empty(),
{
    lemma_place(piece, sep, rest);
    let s = piece + seq![sep] + rest;
    assert(s.take(piece.len() as int) == piece);
    assert(s.skip(piece.len() as int + 1) == rest);
}

/// Joining puts the separator between each two texts, and nowhere else.
pub proof fn law_joined(list: Seq<Seq<char>>, sep: Seq<char>, last: Seq<char>)
    ensures
        text::joined(seq![], sep) == Seq::<char>::empty(),
        text::joined(seq![last], sep) == last,
        list.len() > 0 ==> text::joined(list.push(last), sep) == text::joined(list, sep) + sep
            + last,
{
    assert(list.push(last).drop_last() == list);
}

/// Whether `a` and `b` agree up to `n`, where `b` goes on and `a` has ended, or
/// where the next character of `a` is the smaller one.
pub open spec fn differ_at(a: Seq<char>, b: Seq<char>, n: int) -> bool {
    &&& 0 <= n <= a.len()
    &&& n < b.len()
    &&& a.take(n) == b.take(n)
    &&& n == a.len() || a[n] < b[n]
}

/// A text comes before another where the first character in which they differ
/// is the smaller one, or where the other goes on behind it.
pub proof fn law_before(a: Seq<char>, b: Seq<char>)
    ensures
        text::before(a, b) <==> exists|n: int| #[trigger] differ_at(a, b, n),
    decreases a.len(),
{
    if b.len() == 0 {
    } else if a.len() == 0 {
        assert(a.take(0) == b.take(0));
        assert(differ_at(a, b, 0));
    } else if a[0] == b[0] {
        let c = a.skip(1);
        let d = b.skip(1);
        law_before(c, d);
        if text::before(a, b) {
            let n = choose|n: int| #[trigger] differ_at(c, d, n);
            assert(a.take(n + 1) == seq![a[0]] + c.take(n));
            assert(b.take(n + 1) == seq![b[0]] + d.take(n));
            assert(differ_at(a, b, n + 1));
        }
        if exists|n: int| #[trigger] differ_at(a, b, n) {
            let n = choose|n: int| #[trigger] differ_at(a, b, n);
            assert(n > 0);
            assert(c.take(n - 1) == a.take(n).skip(1));
            assert(d.take(n - 1) == b.take(n).skip(1));
            assert(differ_at(c, d, n - 1));
        }
    } else {
        if a[0] < b[0] {
            assert(a.take(0) == b.take(0));
            assert(differ_at(a, b, 0));
        }
        if exists|n: int| #[trigger] differ_at(a, b, n) {
            let n = choose|n: int| #[trigger] differ_at(a, b, n);
            if n > 0 {
                assert(a.take(n)[0] == b.take(n)[0]);
            }
        }
    }
}

/// What follows a prefix is the rest, and only a text with the prefix has one.
pub proof fn law_after_prefix(s: Seq<char>, prefix: Seq<char>, rest: Seq<char>)
    ensures
        text::after_prefix(s, prefix) == Some(rest) <==> s == prefix + rest,
        text::after_prefix(s, prefix) is None <==> !prefix.is_prefix_of(s),
{
    let all = prefix + rest;
    assert(all.take(prefix.len() as int) == prefix);
    assert(all.skip(prefix.len() as int) == rest);
    if prefix.is_prefix_of(s) {
        assert(s.take(prefix.len() as int) == prefix);
        assert(s == prefix + s.skip(prefix.len() as int));
    }
}

/// A 32-bit number is read from its digits, with or without a plus sign in
/// front, and from nothing else.
pub proof fn law_parsed(s: Seq<char>)
    ensures
        s.len() > 0 && number::all_digits(s) && number::decimal_value(s) <= u32::MAX
            ==> number::parsed_u32(s) == Some(number::decimal_value(s) as u32)
            && number::parsed_u32(seq!['+'] + s) == Some(number::decimal_value(s) as u32),
        number::parsed_u32(s) is Some ==> s.len() > 0 && (forall|i: int|
            0 < i < s.len() ==> number::is_digit(#[trigger] s[i])) && (number::is_digit(s[0]) || (
        s[0] == '+' && s.len() > 1)),
        s.len() > 0 && number::all_digits(s) && number::decimal_value(s) > u32::MAX
            ==> number::parsed_u32(s) is None && number::parsed_u32(seq!['+'] + s) is None,
{
    let plus = seq!['+'] + s;
    assert(plus[0] == '+');
    assert(plus.skip(1) == s);
    if s.len() > 0 && number::all_digits(s) {
        assert(number::is_digit(s[0]));
    }
    if number::parsed_u32(s) is Some {
        assert forall|i: int| 0 < i < s.len() implies number::is_digit(#[trigger] s[i]) by {
            if s[0] == '+' {
                assert(s[i] == s.skip(1)[i - 1]);
            }
        }
    }
}

/// A negative number is written with a minus sign, and no other.
pub proof fn law_signed(n: nat)
    ensures
        number::signed_decimal(n as int) == number::decimal(n),
        n > 0 ==> number::signed_decimal(-n) == seq!['-'] + number::decimal(n),
{
}

/// A digit behind the others stands for the units.
pub proof fn law_decimal_digits(n: nat, d: nat)
    requires
        d < 10,
    ensures
        n > 0 ==> number::decimal(10 * n + d) == number::decimal(n).push((48 + d) as char),
        number::decimal(d) == seq![(48 + d) as char],
{
    assert((10 * n + d) / 10 == n && (10 * n + d) % 10 == d);
}

/// The digits are the characters from `0` to `9`, and each behind others counts as
/// the units behind the tens.
pub proof fn law_digit_values(s: Seq<char>, c: char)
    ensures
        number::is_digit(c) <==> 48 <= c as u32 <= 57,
        number::is_digit(c) ==> number::decimal_value(s.push(c)) == 10 * number::decimal_value(s)
            + (c as u32 - 48),
        number::decimal_value(seq![]) == 0,
{
    assert(s.push(c).drop_last() == s);
}

/// What is quoted stands between single quotes as it is, but for single quotes,
/// each of which is closed, escaped and opened again.
pub proof fn law_quoted(head: Seq<char>, rest: Seq<char>)
    requires
        lacks(head, '\''),
    ensures
        shell::quoted(head) == seq!['\''] + head + seq!['\''],
        shell::quoted(head + seq!['\''] + rest) == seq!['\''] + head + seq!['\'', '\\', '\'']
            + shell::quoted(rest),
{
    lemma_escaped_head(head, Seq::empty());
    assert(head + Seq::<char>::empty() == head);
    assert(head + shell::escaped(seq![]) == head);
    let tail = seq!['\''] + rest;
    lemma_escaped_head(head, tail);
    assert(head + seq!['\''] + rest == head + tail);
    assert(tail[0] == '\'');
    assert(tail.skip(1) == rest);
    assert(shell::quoted(head + seq!['\''] + rest) == seq!['\''] + (head + (seq![
        '\'',
        '\\',
        '\'',
        '\'',
    ] + shell::escaped(rest))) + seq!['\'']);
}

/// Text without single quotes is not escaped.
proof fn lemma_escaped_head(head: Seq<char>, rest: Seq<char>)
    requires
        lacks(head, '\''),
    ensures
        shell::escaped(head + rest) == head + shell::escaped(rest),
    decreases head.len(),
{
    if head.len() == 0 {
        assert(head + rest == rest);
        assert(head + shell::escaped(rest) == shell::escaped(rest));
    } else {
        assert((head + rest)[0] == head[0]);
        assert((head + rest).skip(1) == head.skip(1) + rest);
        assert forall|i: int| 0 <= i < head.skip(1).len() implies #[trigger] head.skip(1)[i]
            != '\'' by {
            assert(head.skip(1)[i] == head[i + 1]);
        }
        lemma_escaped_head(head.skip(1), rest);
        assert(seq![head[0]] + (head.skip(1) + shell::escaped(rest)) == head + shell::escaped(
            rest,
        ));
    }
}

} // verus!
