//! Quoting for the shell, and what the shell reads back.

use crate::text;
use vstd::prelude::*;
use vstd::string::*;

verus! {

/// `s` with each single quote closed, escaped and opened again.
pub open spec fn escaped(s: Seq<char>) -> Seq<char>
    decreases s.len(),
{
    if s.len() == 0 {
        seq![]
    } else if s[0] == '\'' {
        seq!['\'', '\\', '\'', '\''] + escaped(s.skip(1))
    } else {
        seq![s[0]] + escaped(s.skip(1))
    }
}

/// `s` as one single-quoted shell word.
pub open spec fn quoted(s: Seq<char>) -> Seq<char> {
    seq!['\''] + escaped(s) + seq!['\'']
}

/// A text up to its first single quote stays as it is.
proof fn lemma_escaped_run(s: Seq<char>, n: int)
    requires
        0 <= n <= s.len(),
        forall|i: int| 0 <= i < n ==> s[i] != '\'',
    ensures
        escaped(s) == s.take(n) + escaped(s.skip(n)),
    decreases n,
{
    if n == 0 {
        assert(s.skip(0) == s);
        assert(s.take(0) + escaped(s) == escaped(s));
    } else {
        let rest = s.skip(1);
        assert forall|i: int| 0 <= i < n - 1 implies rest[i] != '\'' by {
            assert(rest[i] == s[i + 1]);
        }
        lemma_escaped_run(rest, n - 1);
        assert(rest.skip(n - 1) == s.skip(n));
        assert(seq![s[0]] + (rest.take(n - 1) + escaped(s.skip(n))) == s.take(n) + escaped(
            s.skip(n),
        ));
    }
}

/// `s` as one single-quoted shell word.
pub fn shell_quote(s: &str) -> (word: String)
    ensures
        word@ == quoted(s@),
{
    let chars: Vec<char> = text::chars_of(s);
    let mut word: String = "'".to_owned();
    proof {
        reveal_strlit("'");
        reveal_strlit("'\\''");
        assert("'"@ == seq!['\'']);
        assert("'\\''"@ == seq!['\'', '\\', '\'', '\'']);
    }
    let mut from: usize = 0;
    assert(s@.skip(0) == s@);
    while from < chars.len()
        invariant
            from <= chars.len(),
            chars@ == s@,
            "'\\''"@ == seq!['\'', '\\', '\'', '\''],
            word@ + escaped(s@.skip(from as int)) == seq!['\''] + escaped(s@),
        decreases chars.len() - from,
    {
        let ghost before = word@;
        let ghost rest = s@.skip(from as int);
        let end: usize = text::place_from(&chars, from, '\'');
        proof {
            text::lemma_first_place(rest, '\'');
            lemma_escaped_run(rest, end - from);
            assert(rest.take(end - from) == s@.subrange(from as int, end as int));
            assert(rest.skip(end - from) == s@.skip(end as int));
        }
        word.append(s.substring_char(from, end));
        assert(word@ + escaped(s@.skip(end as int)) == before + escaped(rest));
        if end < chars.len() {
            let ghost middle = word@;
            word.append("'\\''");
            proof {
                assert(s@.skip(end as int).skip(1) == s@.skip(end + 1));
                assert(s@.skip(end as int)[0] == '\'');
                assert(word@ + escaped(s@.skip(end + 1)) == middle + escaped(
                    s@.skip(end as int),
                ));
            }
            from = end + 1;
        } else {
            from = end;
        }
    }
    assert(word@ == seq!['\''] + escaped(s@)) by {
        assert(word@ + escaped(s@.skip(from as int)) == word@);
    }
    word.append("'");
    word
}

/// Characters that separate words.
pub open spec fn is_blank(c: char) -> bool {
    c == ' ' || c == '\t'
}

/// Characters that the shell acts upon wherever they stand unquoted.
pub open spec fn is_operator(c: char) -> bool {
    ||| c == '|' || c == '&' || c == ';' || c == '<' || c == '>'
    ||| c == '(' || c == ')' || c == '$' || c == '`' || c == '"'
    ||| c == '\n' || c == '*' || c == '?' || c == '['
}

/// What `word` holds, and nothing where no word has begun.
pub open spec fn begun(word: Option<Seq<char>>) -> Seq<char> {
    match word {
        Some(w) => w,
        None => seq![],
    }
}

/// Whether `c`, unquoted behind `word`, stands for itself: it is no operator,
/// begins no comment and no home directory, and ends no variable's name.
pub open spec fn is_literal(c: char, word: Option<Seq<char>>) -> bool {
    &&& !is_operator(c)
    &&& (c == '#' || c == '~') ==> word is Some
    &&& c == '=' ==> begun(word).contains('/')
}

/// The words that a shell reads from `s`, where `word` has been read of the
/// current one and `in_quotes` tells whether a single quote is open. `None`
/// where a quote stays open or something stands unquoted that does not stand
/// for itself.
pub open spec fn read_words(
    s: Seq<char>,
    word: Option<Seq<char>>,
    in_quotes: bool,
) -> Option<Seq<Seq<char>>>
    decreases s.len(),
{
    if s.len() == 0 {
        if in_quotes {
            None
        } else {
            match word {
                Some(w) => Some(seq![w]),
                None => Some(seq![]),
            }
        }
    } else if in_quotes {
        if s[0] == '\'' {
            read_words(s.skip(1), word, false)
        } else {
            read_words(s.skip(1), Some(begun(word).push(s[0])), true)
        }
    } else if s[0] == '\'' {
        read_words(s.skip(1), Some(begun(word)), true)
    } else if s[0] == '\\' {
        if s.len() >= 2 && s[1] != '\n' {
            read_words(s.skip(2), Some(begun(word).push(s[1])), false)
        } else {
            None
        }
    } else if is_blank(s[0]) {
        match (word, read_words(s.skip(1), None, false)) {
            (_, None) => None,
            (None, Some(more)) => Some(more),
            (Some(w), Some(more)) => Some(seq![w] + more),
        }
    } else if is_literal(s[0], word) {
        read_words(s.skip(1), Some(begun(word).push(s[0])), false)
    } else {
        None
    }
}

/// The words that a shell reads from `s`.
pub open spec fn shell_words(s: Seq<char>) -> Option<Seq<Seq<char>>> {
    read_words(s, None, false)
}

/// Reading goes on behind a blank with the words before it kept.
proof fn lemma_read_then(s: Seq<char>, t: Seq<char>, word: Option<Seq<char>>, in_quotes: bool)
    requires
        read_words(s, word, in_quotes) is Some,
        shell_words(t) is Some,
    ensures
        read_words(s + seq![' '] + t, word, in_quotes) == Some(
            read_words(s, word, in_quotes)->0 + shell_words(t)->0,
        ),
    decreases s.len(),
{
    let all = s + seq![' '] + t;
    let more = shell_words(t)->0;
    if s.len() == 0 {
        assert(all.skip(1) == t);
        assert(Seq::<Seq<char>>::empty() + more == more);
    } else {
        assert(all[0] == s[0]);
        assert(all.skip(1) == s.skip(1) + seq![' '] + t);
        if in_quotes {
            if s[0] == '\'' {
                lemma_read_then(s.skip(1), t, word, false);
            } else {
                lemma_read_then(s.skip(1), t, Some(begun(word).push(s[0])), true);
            }
        } else if s[0] == '\'' {
            lemma_read_then(s.skip(1), t, Some(begun(word)), true);
        } else if s[0] == '\\' {
            assert(all[1] == s[1]);
            assert(all.skip(2) == s.skip(2) + seq![' '] + t);
            lemma_read_then(s.skip(2), t, Some(begun(word).push(s[1])), false);
        } else if is_blank(s[0]) {
            lemma_read_then(s.skip(1), t, None, false);
            match word {
                Some(w) => {
                    let rest = read_words(s.skip(1), None, false)->0;
                    assert((seq![w] + rest) + more == seq![w] + (rest + more));
                },
                None => {},
            }
        } else {
            lemma_read_then(s.skip(1), t, Some(begun(word).push(s[0])), false);
        }
    }
}

/// Two texts with a blank between them read as the words of one and then of
/// the other.
pub proof fn law_words_concatenate(s: Seq<char>, t: Seq<char>)
    requires
        shell_words(s) is Some,
        shell_words(t) is Some,
    ensures
        shell_words(s + seq![' '] + t) == Some(shell_words(s)->0 + shell_words(t)->0),
{
    lemma_read_then(s, t, None, false);
}

/// Inside an open quote an escaped text and the closing quote read as the text.
proof fn lemma_read_escaped(s: Seq<char>, word: Seq<char>)
    ensures
        read_words(escaped(s) + seq!['\''], Some(word), true) == Some(seq![word + s]),
    decreases s.len(),
{
    let input = escaped(s) + seq!['\''];
    if s.len() == 0 {
        assert(input.skip(1).len() == 0);
        assert(word + s == word);
    } else {
        let rest = s.skip(1);
        let tail = escaped(rest) + seq!['\''];
        lemma_read_escaped(rest, word.push(s[0]));
        assert(word.push(s[0]) + rest == word + s);
        if s[0] == '\'' {
            assert(input == seq!['\'', '\\', '\'', '\''] + tail);
            assert(input.skip(1) == seq!['\\', '\'', '\''] + tail);
            assert(input.skip(1).skip(2) == seq!['\''] + tail);
            assert(input.skip(1).skip(2).skip(1) == tail);
            assert(read_words(input.skip(1).skip(2), Some(word.push('\'')), false) == read_words(
                tail,
                Some(word.push('\'')),
                true,
            ));
            assert(read_words(input.skip(1), Some(word), false) == read_words(
                input.skip(1).skip(2),
                Some(word.push('\'')),
                false,
            ));
            assert(read_words(input, Some(word), true) == read_words(
                input.skip(1),
                Some(word),
                false,
            ));
        } else {
            assert(input == seq![s[0]] + tail);
            assert(input.skip(1) == tail);
        }
    }
}

/// A shell reads a quoted text as one word, which is the text.
pub proof fn law_quoted_reads_back(s: Seq<char>)
    ensures
        shell_words(quoted(s)) == Some(seq![s]),
{
    let input = quoted(s);
    assert(input.skip(1) == escaped(s) + seq!['\'']);
    lemma_read_escaped(s, seq![]);
    assert(Seq::<char>::empty() + s == s);
}

} // verus!
