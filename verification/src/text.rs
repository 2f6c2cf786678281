//! Plain text: the string operations that the rest of the library is made of,
//! stated over sequences of characters.

use vstd::prelude::*;
use vstd::string::*;

verus! {

/// What each string of a list holds.
pub open spec fn texts(list: Seq<String>) -> Seq<Seq<char>> {
    Seq::new(list.len(), |i: int| list[i]@)
}

/// The Unicode property `White_Space`.
pub open spec fn is_white_space(c: char) -> bool {
    let n = c as u32;
    ||| 0x9 <= n <= 0xd
    ||| n == 0x20
    ||| n == 0x85
    ||| n == 0xa0
    ||| n == 0x1680
    ||| 0x2000 <= n <= 0x200a
    ||| n == 0x2028
    ||| n == 0x2029
    ||| n == 0x202f
    ||| n == 0x205f
    ||| n == 0x3000
}

/// Whether `c` has the Unicode property `White_Space`.
pub fn white_space(c: char) -> (answer: bool)
    ensures
        answer == is_white_space(c),
{
    let n: u32 = c as u32;
    (0x9 <= n && n <= 0xd) || n == 0x20 || n == 0x85 || n == 0xa0 || n == 0x1680 || (0x2000 <= n
        && n <= 0x200a) || n == 0x2028 || n == 0x2029 || n == 0x202f || n == 0x205f || n == 0x3000
}

/// The characters of `s`.
pub fn chars_of(s: &str) -> (chars: Vec<char>)
    ensures
        chars@ == s@,
{
    let mut chars: Vec<char> = Vec::new();
    for c in it: s.chars()
        invariant
            it.seq() == s@,
            chars@ == it.seq().take(it.index() as int),
    {
        chars.push(c);
    }
    chars
}

/// Whether `a` and `b` are the same text.
pub fn same(a: &str, b: &str) -> (answer: bool)
    ensures
        answer == (a@ == b@),
{
    let left: Vec<char> = chars_of(a);
    let right: Vec<char> = chars_of(b);
    if left.len() != right.len() {
        return false;
    }
    let mut i: usize = 0;
    while i < left.len()
        invariant
            i <= left.len(),
            left.len() == right.len(),
            left@ == a@,
            right@ == b@,
            left@.take(i as int) == right@.take(i as int),
        decreases left.len() - i,
    {
        if left[i] != right[i] {
            return false;
        }
        assert(left@.take(i + 1) == left@.take(i as int).push(left@[i as int]));
        assert(right@.take(i + 1) == right@.take(i as int).push(right@[i as int]));
        i += 1;
    }
    assert(left@.take(i as int) == left@);
    assert(right@.take(i as int) == right@);
    true
}

/// Whether `s` begins with `prefix`.
pub fn starts_with(s: &str, prefix: &str) -> (answer: bool)
    ensures
        answer == prefix@.is_prefix_of(s@),
{
    let n: usize = prefix.unicode_len();
    if s.unicode_len() < n {
        return false;
    }
    let head: &str = s.substring_char(0, n);
    assert(s@.subrange(0, n as int) == s@.take(n as int));
    same(head, prefix)
}

/// What follows `prefix` in `s`, if `s` begins with it.
pub open spec fn after_prefix(s: Seq<char>, prefix: Seq<char>) -> Option<Seq<char>> {
    if prefix.is_prefix_of(s) {
        Some(s.skip(prefix.len() as int))
    } else {
        None
    }
}

/// What follows `prefix` in `s`, if `s` begins with it.
pub fn strip_prefix<'a>(s: &'a str, prefix: &str) -> (rest: Option<&'a str>)
    ensures
        match rest {
            Some(r) => after_prefix(s@, prefix@) == Some(r@),
            None => after_prefix(s@, prefix@) is None,
        },
{
    if starts_with(s, prefix) {
        let rest: &str = s.substring_char(prefix.unicode_len(), s.unicode_len());
        assert(rest@ == s@.skip(prefix@.len() as int));
        Some(rest)
    } else {
        None
    }
}

/// `s` without the white space at its front.
pub open spec fn trimmed_front(s: Seq<char>) -> Seq<char>
    decreases s.len(),
{
    if s.len() > 0 && is_white_space(s[0]) {
        trimmed_front(s.skip(1))
    } else {
        s
    }
}

/// `s` without the white space at its back.
pub open spec fn trimmed_back(s: Seq<char>) -> Seq<char>
    decreases s.len(),
{
    if s.len() > 0 && is_white_space(s.last()) {
        trimmed_back(s.drop_last())
    } else {
        s
    }
}

/// `s` without the white space at either end.
pub open spec fn trimmed(s: Seq<char>) -> Seq<char> {
    trimmed_back(trimmed_front(s))
}

/// `s` without the white space at either end.
pub fn trim(s: &str) -> (inner: &str)
    ensures
        inner@ == trimmed(s@),
{
    let chars: Vec<char> = chars_of(s);
    let mut from: usize = 0;
    assert(s@.skip(0) == s@);
    while from < chars.len() && white_space(chars[from])
        invariant
            from <= chars.len(),
            chars@ == s@,
            trimmed_front(s@) == trimmed_front(s@.skip(from as int)),
        decreases chars.len() - from,
    {
        assert(s@.skip(from as int).skip(1) == s@.skip(from + 1));
        from += 1;
    }
    assert(trimmed_front(s@) == s@.skip(from as int));
    let mut to: usize = chars.len();
    assert(s@.subrange(from as int, to as int) == s@.skip(from as int));
    while from < to && white_space(chars[to - 1])
        invariant
            from <= to <= chars.len(),
            chars@ == s@,
            trimmed(s@) == trimmed_back(s@.subrange(from as int, to as int)),
        decreases to - from,
    {
        assert(s@.subrange(from as int, to as int).drop_last() == s@.subrange(
            from as int,
            to - 1,
        ));
        to -= 1;
    }
    s.substring_char(from, to)
}

/// The first place of `sep` in `s`, or the length of `s`.
pub open spec fn first_place(s: Seq<char>, sep: char) -> nat
    decreases s.len(),
{
    if s.len() == 0 || s[0] == sep {
        0
    } else {
        1 + first_place(s.skip(1), sep)
    }
}

/// `first_place` is a place of `sep` or the end, and no earlier place holds `sep`.
pub proof fn lemma_first_place(s: Seq<char>, sep: char)
    ensures
        first_place(s, sep) <= s.len(),
        first_place(s, sep) < s.len() ==> s[first_place(s, sep) as int] == sep,
        forall|i: int| 0 <= i < first_place(s, sep) ==> s[i] != sep,
    decreases s.len(),
{
    if s.len() > 0 && s[0] != sep {
        lemma_first_place(s.skip(1), sep);
        assert forall|i: int| 0 <= i < first_place(s, sep) implies s[i] != sep by {
            if i > 0 {
                assert(s[i] == s.skip(1)[i - 1]);
            }
        }
    }
}

/// The place of `sep` is where it stands if nothing before it is `sep`.
pub proof fn lemma_first_place_is(s: Seq<char>, sep: char, place: int)
    requires
        0 <= place <= s.len(),
        place < s.len() ==> s[place] == sep,
        forall|i: int| 0 <= i < place ==> s[i] != sep,
    ensures
        first_place(s, sep) == place,
{
    lemma_first_place(s, sep);
    let first = first_place(s, sep) as int;
    if first < place {
        assert(s[first] != sep);
    } else if place < first {
        assert(s[place] != sep);
    }
}

/// The first place of `sep` at or after `from`.
pub fn place_from(chars: &Vec<char>, from: usize, sep: char) -> (place: usize)
    requires
        from <= chars.len(),
    ensures
        from <= place <= chars.len(),
        place - from == first_place(chars@.skip(from as int), sep),
{
    let mut place: usize = from;
    while place < chars.len() && chars[place] != sep
        invariant
            from <= place <= chars.len(),
            forall|i: int| from <= i < place ==> chars@[i] != sep,
        decreases chars.len() - place,
    {
        place += 1;
    }
    proof {
        lemma_first_place_is(chars@.skip(from as int), sep, place - from);
    }
    place
}

/// A line that ended in a line feed, without the carriage return before it.
pub open spec fn without_return(line: Seq<char>) -> Seq<char> {
    if line.len() > 0 && line.last() == '\r' {
        line.drop_last()
    } else {
        line
    }
}

/// The lines of `s`: each ends in a line feed, alone or behind a carriage
/// return, and the last may end with the text.
pub open spec fn lines_of(s: Seq<char>) -> Seq<Seq<char>>
    decreases s.len(),
{
    let end = first_place(s, '\n') as int;
    if s.len() == 0 {
        seq![]
    } else if end >= s.len() {
        seq![s]
    } else {
        seq![without_return(s.take(end))] + lines_of(s.skip(end + 1))
    }
}

/// The lines of `s`.
pub fn lines(s: &str) -> (list: Vec<String>)
    ensures
        texts(list@) == lines_of(s@),
{
    let chars: Vec<char> = chars_of(s);
    let mut list: Vec<String> = Vec::new();
    let mut from: usize = 0;
    assert(s@.skip(0) == s@);
    assert(texts(list@) + lines_of(s@.skip(0)) == lines_of(s@));
    while from < chars.len()
        invariant
            from <= chars.len(),
            chars@ == s@,
            texts(list@) + lines_of(s@.skip(from as int)) == lines_of(s@),
        decreases chars.len() - from,
    {
        let ghost rest = s@.skip(from as int);
        let ghost before = texts(list@);
        let end: usize = place_from(&chars, from, '\n');
        if end == chars.len() {
            let line: String = s.substring_char(from, end).to_owned();
            assert(line@ == rest);
            list.push(line);
            assert(texts(list@) == before + lines_of(rest));
            return list;
        }
        let stop: usize = if end > from && chars[end - 1] == '\r' {
            end - 1
        } else {
            end
        };
        let line: String = s.substring_char(from, stop).to_owned();
        list.push(line);
        proof {
            let k = end - from;
            assert(rest.take(k) == s@.subrange(from as int, end as int));
            assert(line@ == without_return(rest.take(k)));
            assert(rest.skip(k + 1) == s@.skip(end + 1));
            assert(texts(list@) == before + seq![line@]);
            assert(texts(list@) + lines_of(s@.skip(end + 1)) == before + (seq![line@] + lines_of(
                s@.skip(end + 1),
            )));
        }
        from = end + 1;
    }
    proof {
        assert(texts(list@) + lines_of(s@.skip(from as int)) == texts(list@));
    }
    list
}

/// How many characters at the front of `s` are not white space.
pub open spec fn word_length(s: Seq<char>) -> nat
    decreases s.len(),
{
    if s.len() == 0 || is_white_space(s[0]) {
        0
    } else {
        1 + word_length(s.skip(1))
    }
}

/// The front word of `s` lies within `s`.
pub proof fn lemma_word_length(s: Seq<char>)
    ensures
        word_length(s) <= s.len(),
    decreases s.len(),
{
    if s.len() > 0 && !is_white_space(s[0]) {
        lemma_word_length(s.skip(1));
    }
}

/// The words of `s`: the longest runs without white space.
pub open spec fn words_of(s: Seq<char>) -> Seq<Seq<char>>
    decreases s.len(),
{
    if s.len() == 0 {
        seq![]
    } else if is_white_space(s[0]) {
        words_of(s.skip(1))
    } else {
        let end = word_length(s) as int;
        proof {
            lemma_word_length(s);
        }
        seq![s.take(end)] + words_of(s.skip(end))
    }
}

/// The words of `s`.
pub fn words(s: &str) -> (list: Vec<String>)
    ensures
        texts(list@) == words_of(s@),
{
    let chars: Vec<char> = chars_of(s);
    let mut list: Vec<String> = Vec::new();
    let mut from: usize = 0;
    assert(s@.skip(0) == s@);
    assert(texts(list@) + words_of(s@.skip(0)) == words_of(s@));
    while from < chars.len()
        invariant
            from <= chars.len(),
            chars@ == s@,
            texts(list@) + words_of(s@.skip(from as int)) == words_of(s@),
        decreases chars.len() - from,
    {
        let ghost rest = s@.skip(from as int);
        let ghost before = texts(list@);
        if white_space(chars[from]) {
            assert(rest.skip(1) == s@.skip(from + 1));
            from += 1;
        } else {
            let mut end: usize = from + 1;
            assert(rest.skip(1) == s@.skip(end as int));
            while end < chars.len() && !white_space(chars[end])
                invariant
                    from < end <= chars.len(),
                    chars@ == s@,
                    rest == s@.skip(from as int),
                    word_length(rest) == (end - from) + word_length(s@.skip(end as int)),
                decreases chars.len() - end,
            {
                assert(s@.skip(end as int).skip(1) == s@.skip(end + 1));
                end += 1;
            }
            let word: String = s.substring_char(from, end).to_owned();
            list.push(word);
            proof {
                let k = end - from;
                assert(word@ == rest.take(k));
                assert(rest.skip(k) == s@.skip(end as int));
                assert(texts(list@) == before + seq![word@]);
                assert(texts(list@) + words_of(s@.skip(end as int)) == before + (seq![word@]
                    + words_of(s@.skip(end as int))));
            }
            from = end;
        }
    }
    assert(texts(list@) + words_of(s@.skip(from as int)) == texts(list@));
    list
}

/// The at most `most` pieces of `s` between the first places of `sep`.
pub open spec fn pieces_of(s: Seq<char>, sep: char, most: nat) -> Seq<Seq<char>>
    decreases most,
{
    let end = first_place(s, sep) as int;
    if most == 0 {
        seq![]
    } else if most == 1 || end >= s.len() {
        seq![s]
    } else {
        seq![s.take(end)] + pieces_of(s.skip(end + 1), sep, (most - 1) as nat)
    }
}

/// The at most `most` pieces of `s` between the first places of `sep`.
pub fn pieces(s: &str, sep: char, most: usize) -> (list: Vec<String>)
    ensures
        texts(list@) == pieces_of(s@, sep, most as nat),
{
    let chars: Vec<char> = chars_of(s);
    let mut list: Vec<String> = Vec::new();
    let mut from: usize = 0;
    let mut left: usize = most;
    assert(s@.skip(0) == s@);
    assert(texts(list@) + pieces_of(s@.skip(0), sep, most as nat) == pieces_of(
        s@,
        sep,
        most as nat,
    ));
    while left > 0
        invariant
            from <= chars.len(),
            chars@ == s@,
            texts(list@) + pieces_of(s@.skip(from as int), sep, left as nat) == pieces_of(
                s@,
                sep,
                most as nat,
            ),
        decreases left,
    {
        let ghost rest = s@.skip(from as int);
        let ghost before = texts(list@);
        let end: usize = place_from(&chars, from, sep);
        if left == 1 || end == chars.len() {
            let piece: String = s.substring_char(from, chars.len()).to_owned();
            list.push(piece);
            assert(piece@ == rest);
            assert(texts(list@) == before + pieces_of(rest, sep, left as nat));
            return list;
        }
        let piece: String = s.substring_char(from, end).to_owned();
        list.push(piece);
        proof {
            let k = end - from;
            assert(piece@ == rest.take(k));
            assert(rest.skip(k + 1) == s@.skip(end + 1));
            let tail = pieces_of(s@.skip(end + 1), sep, (left - 1) as nat);
            assert(texts(list@) == before + seq![piece@]);
            assert(texts(list@) + tail == before + (seq![piece@] + tail));
        }
        from = end + 1;
        left -= 1;
    }
    assert(texts(list@) + pieces_of(s@.skip(from as int), sep, 0) == texts(list@));
    list
}

/// The texts of `list` with `sep` between each two.
pub open spec fn joined(list: Seq<Seq<char>>, sep: Seq<char>) -> Seq<char>
    decreases list.len(),
{
    if list.len() == 0 {
        seq![]
    } else if list.len() == 1 {
        list[0]
    } else {
        joined(list.drop_last(), sep) + sep + list.last()
    }
}

/// The texts of `list` with `sep` between each two.
pub fn join(list: &Vec<String>, sep: &str) -> (all: String)
    ensures
        all@ == joined(texts(list@), sep@),
{
    let mut all: String = String::new();
    let mut i: usize = 0;
    assert(all@ == joined(texts(list@).take(0), sep@));
    while i < list.len()
        invariant
            i <= list.len(),
            all@ == joined(texts(list@).take(i as int), sep@),
        decreases list.len() - i,
    {
        let ghost next = texts(list@).take(i + 1);
        assert(next.drop_last() == texts(list@).take(i as int));
        if i > 0 {
            all.append(sep);
        }
        all.append(list[i].as_str());
        assert(all@ == joined(next, sep@));
        i += 1;
    }
    assert(texts(list@).take(i as int) == texts(list@));
    all
}

/// Whether `a` comes before `b`: the order of their characters, and a text
/// before its continuations.
pub open spec fn before(a: Seq<char>, b: Seq<char>) -> bool
    decreases a.len(),
{
    if b.len() == 0 {
        false
    } else if a.len() == 0 {
        true
    } else if a[0] == b[0] {
        before(a.skip(1), b.skip(1))
    } else {
        a[0] < b[0]
    }
}

/// Whether `a` comes before `b`.
pub fn comes_before(a: &str, b: &str) -> (answer: bool)
    ensures
        answer == before(a@, b@),
{
    let left: Vec<char> = chars_of(a);
    let right: Vec<char> = chars_of(b);
    let mut i: usize = 0;
    assert(a@.skip(0) == a@);
    assert(b@.skip(0) == b@);
    while i < left.len() && i < right.len() && left[i] == right[i]
        invariant
            i <= left.len(),
            i <= right.len(),
            left@ == a@,
            right@ == b@,
            before(a@, b@) == before(a@.skip(i as int), b@.skip(i as int)),
        decreases left.len() - i,
    {
        assert(a@.skip(i as int).skip(1) == a@.skip(i + 1));
        assert(b@.skip(i as int).skip(1) == b@.skip(i + 1));
        i += 1;
    }
    proof {
        if i < a@.len() && i < b@.len() {
            assert(a@.skip(i as int)[0] == left@[i as int]);
            assert(b@.skip(i as int)[0] == right@[i as int]);
        }
    }
    if i == right.len() {
        false
    } else if i == left.len() {
        true
    } else {
        left[i] < right[i]
    }
}

/// No text comes before itself.
pub proof fn lemma_before_irreflexive(a: Seq<char>)
    ensures
        !before(a, a),
    decreases a.len(),
{
    if a.len() > 0 {
        lemma_before_irreflexive(a.skip(1));
    }
}

/// Of two different texts one comes before the other.
pub proof fn lemma_before_total(a: Seq<char>, b: Seq<char>)
    ensures
        a == b || before(a, b) || before(b, a),
    decreases a.len(),
{
    if a.len() > 0 && b.len() > 0 && a[0] == b[0] {
        lemma_before_total(a.skip(1), b.skip(1));
        if a.skip(1) == b.skip(1) {
            assert(a =~= b) by {
                assert forall|i: int| 0 <= i < a.len() implies a[i] == b[i] by {
                    if i > 0 {
                        assert(a[i] == a.skip(1)[i - 1]);
                        assert(b[i] == b.skip(1)[i - 1]);
                    }
                }
            }
        }
    } else if a.len() == 0 && b.len() == 0 {
        assert(a == b);
    }
}

/// What comes before what comes before `c` comes before `c`.
pub proof fn lemma_before_transitive(a: Seq<char>, b: Seq<char>, c: Seq<char>)
    requires
        before(a, b),
        before(b, c),
    ensures
        before(a, c),
    decreases a.len(),
{
    if a.len() > 0 && a[0] == b[0] && b[0] == c[0] {
        lemma_before_transitive(a.skip(1), b.skip(1), c.skip(1));
    }
}

} // verus!
