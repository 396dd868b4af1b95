//! Small character-level helpers over strings.

use vstd::prelude::*;
use vstd::std_specs::iter::IteratorSpec;

verus! {

broadcast use vstd::string::group_string_axioms;

/// The characters of a string, in order.
pub fn chars_of(s: &str) -> (v: Vec<char>)
    ensures
        v@ == s@,
{
    let mut v: Vec<char> = Vec::new();
    let mut it = s.chars();
    loop
        invariant
            it.obeys_prophetic_iter_laws(),
            v@ + it.remaining() == s@,
            it.decrease() is Some,
        ensures
            v@ == s@,
        decreases it.decrease()->0,
    {
        match it.next() {
            Some(c) => {
                v.push(c);
            },
            None => {
                assert(v@ + Seq::<char>::empty() == v@);
                break;
            },
        }
    }
    v
}

/// `String::push`: appends one character to the end of the string.
pub assume_specification[ String::push ](s: &mut String, c: char)
    ensures
        final(s)@ == old(s)@.push(c),
;

/// The string made of the characters `chars[from..to]`.
pub fn string_of(chars: &Vec<char>, from: usize, to: usize) -> (s: String)
    requires
        from <= to <= chars.len(),
    ensures
        s@ == chars@.subrange(from as int, to as int),
{
    let mut s = String::new();
    let mut i: usize = from;
    while i < to
        invariant
            from <= i <= to <= chars.len(),
            s@ == chars@.subrange(from as int, i as int),
        decreases to - i,
    {
        s.push(chars[i]);
        i += 1;
    }
    s
}

/// Appends the characters of `tail` to `s`.
pub fn push_text(s: &mut String, tail: &str)
    ensures
        final(s)@ == old(s)@ + tail@,
{
    let chars = chars_of(tail);
    let mut i: usize = 0;
    assert(chars@.take(0) == Seq::<char>::empty());
    while i < chars.len()
        invariant
            i <= chars.len(),
            chars@ == tail@,
            s@ == old(s)@ + chars@.take(i as int),
        decreases chars.len() - i,
    {
        s.push(chars[i]);
        assert(chars@.take(i as int).push(chars[i as int]) == chars@.take(i + 1));
        i += 1;
    }
    assert(chars@.take(chars.len() as int) == chars@);
}

/// Whether a character is white space: the code points with the Unicode
/// property `White_Space`.
pub open spec fn is_white_space(c: char) -> bool {
    let n = c as u32;
    ||| 0x09 <= n <= 0x0D
    ||| n == 0x20
    ||| n == 0x85
    ||| n == 0xA0
    ||| n == 0x1680
    ||| 0x2000 <= n <= 0x200A
    ||| n == 0x2028
    ||| n == 0x2029
    ||| n == 0x202F
    ||| n == 0x205F
    ||| n == 0x3000
}

/// Whether a character is white space.
pub fn is_whitespace(c: char) -> (white: bool)
    ensures
        white == is_white_space(c),
{
    let n: u32 = c as u32;
    (0x09 <= n && n <= 0x0D) || n == 0x20 || n == 0x85 || n == 0xA0 || n == 0x1680 || (0x2000 <= n
        && n <= 0x200A) || n == 0x2028 || n == 0x2029 || n == 0x202F || n == 0x205F || n == 0x3000
}

/// Length of the longest prefix of `s` that holds no white space.
pub open spec fn word_len(s: Seq<char>) -> int
    decreases s.len(),
{
    if s.len() == 0 || is_white_space(s[0]) {
        0
    } else {
        1 + word_len(s.drop_first())
    }
}

/// The words of a text: its longest runs of characters that are not
/// white space, in order. None of them is empty.
pub open spec fn words(s: Seq<char>) -> Seq<Seq<char>>
    decreases s.len(),
{
    if s.len() == 0 {
        Seq::empty()
    } else if is_white_space(s[0]) {
        words(s.drop_first())
    } else {
        proof {
            lemma_word_len_bounds(s);
        }
        seq![s.take(word_len(s))] + words(s.skip(word_len(s)))
    }
}

/// Length of the prefix of `s` before its first `stop`, or of all of `s`
/// where it has none.
pub open spec fn prefix_len(s: Seq<char>, stop: char) -> int
    decreases s.len(),
{
    if s.len() == 0 || s[0] == stop {
        0
    } else {
        1 + prefix_len(s.drop_first(), stop)
    }
}

/// What stands in `s` before its first `stop`: all of `s` where it has
/// none.
pub open spec fn prefix_before(s: Seq<char>, stop: char) -> Seq<char> {
    s.take(prefix_len(s, stop))
}

/// The fields of a text: what stands before, between and after its
/// colons, in order. A text with no colon is one field; fields can be
/// empty.
pub open spec fn colon_fields(s: Seq<char>) -> Seq<Seq<char>>
    decreases s.len(),
{
    let n = prefix_len(s, ':');
    if n < s.len() {
        proof {
            lemma_prefix_len_bounds(s, ':');
        }
        seq![s.take(n)] + colon_fields(s.skip(n + 1))
    } else {
        seq![s]
    }
}

/// The fields of every word of a list, in order.
pub open spec fn fields_of_all(list: Seq<Seq<char>>) -> Seq<Seq<char>>
    decreases list.len(),
{
    if list.len() == 0 {
        Seq::empty()
    } else {
        colon_fields(list[0]) + fields_of_all(list.drop_first())
    }
}

/// The views of a list of strings.
pub open spec fn views(list: Seq<String>) -> Seq<Seq<char>> {
    Seq::new(list.len(), |i: int| list[i]@)
}

/// A word is no longer than its text, and not empty where the text starts
/// with a character that is no white space.
pub proof fn lemma_word_len_bounds(s: Seq<char>)
    ensures
        0 <= word_len(s) <= s.len(),
        s.len() > 0 && !is_white_space(s[0]) ==> word_len(s) > 0,
    decreases s.len(),
{
    if s.len() > 0 && !is_white_space(s[0]) {
        lemma_word_len_bounds(s.drop_first());
    }
}

/// A prefix is no longer than its text.
pub proof fn lemma_prefix_len_bounds(s: Seq<char>, stop: char)
    ensures
        0 <= prefix_len(s, stop) <= s.len(),
    decreases s.len(),
{
    if s.len() > 0 && s[0] != stop {
        lemma_prefix_len_bounds(s.drop_first(), stop);
    }
}

/// The word length counts exactly the characters up to the first white
/// space.
pub proof fn lemma_word_len(s: Seq<char>, n: int)
    requires
        0 <= n <= s.len(),
        forall|k: int| 0 <= k < n ==> !is_white_space(s[k]),
        n == s.len() || is_white_space(s[n]),
    ensures
        word_len(s) == n,
    decreases n,
{
    if n > 0 {
        assert(s.drop_first().len() == s.len() - 1);
        assert forall|k: int| 0 <= k < n - 1 implies !is_white_space(s.drop_first()[k]) by {
            assert(s.drop_first()[k] == s[k + 1]);
        }
        lemma_word_len(s.drop_first(), n - 1);
    }
}

/// The prefix length counts exactly the characters up to the first
/// `stop`.
pub proof fn lemma_prefix_len(s: Seq<char>, stop: char, n: int)
    requires
        0 <= n <= s.len(),
        forall|k: int| 0 <= k < n ==> s[k] != stop,
        n == s.len() || s[n] == stop,
    ensures
        prefix_len(s, stop) == n,
    decreases n,
{
    if n > 0 {
        assert(s.drop_first().len() == s.len() - 1);
        assert forall|k: int| 0 <= k < n - 1 implies s.drop_first()[k] != stop by {
            assert(s.drop_first()[k] == s[k + 1]);
        }
        lemma_prefix_len(s.drop_first(), stop, n - 1);
    }
}

/// Position of the first `stop` in `chars[from..]`, or the length of
/// `chars` where there is none.
pub fn find_from(chars: &Vec<char>, from: usize, stop: char) -> (at: usize)
    requires
        from <= chars.len(),
    ensures
        from <= at <= chars.len(),
        at - from == prefix_len(chars@.skip(from as int), stop),
        forall|k: int| from <= k < at ==> chars[k] != stop,
        at < chars.len() ==> chars[at as int] == stop,
{
    let mut j: usize = from;
    while j < chars.len() && chars[j] != stop
        invariant
            from <= j <= chars.len(),
            forall|k: int| from <= k < j ==> chars[k] != stop,
        decreases chars.len() - j,
    {
        j += 1;
    }
    proof {
        lemma_prefix_len(chars@.skip(from as int), stop, j - from);
    }
    j
}

/// Fields of a list with one more word at its end.
pub proof fn lemma_fields_of_all_push(list: Seq<Seq<char>>, word: Seq<char>)
    ensures
        fields_of_all(list.push(word)) == fields_of_all(list) + colon_fields(word),
    decreases list.len(),
{
    if list.len() == 0 {
        reveal_with_fuel(fields_of_all, 2);
        assert(list.push(word).drop_first() == Seq::<Seq<char>>::empty());
        assert(list.push(word)[0] == word);
        assert(colon_fields(word) + Seq::<Seq<char>>::empty() == colon_fields(word));
        assert(Seq::<Seq<char>>::empty() + colon_fields(word) == colon_fields(word));
    } else {
        assert(list.push(word).drop_first() == list.drop_first().push(word));
        lemma_fields_of_all_push(list.drop_first(), word);
        assert(colon_fields(list[0]) + (fields_of_all(list.drop_first()) + colon_fields(word))
            == (colon_fields(list[0]) + fields_of_all(list.drop_first())) + colon_fields(word));
    }
}

/// Splits a text into its words, as `words` has them.
pub fn split_words(text: &str) -> (list: Vec<String>)
    ensures
        views(list@) == words(text@),
{
    let chars = chars_of(text);
    let n: usize = chars.len();
    let mut list: Vec<String> = Vec::new();
    let mut i: usize = 0;
    assert(chars@.skip(0) == chars@);
    assert(views(list@) == Seq::<Seq<char>>::empty());
    while i < n
        invariant
            chars@ == text@,
            n == chars.len(),
            i <= n,
            views(list@) + words(chars@.skip(i as int)) == words(chars@),
        decreases n - i,
    {
        let ghost rest = chars@.skip(i as int);
        if is_whitespace(chars[i]) {
            assert(rest.drop_first() == chars@.skip(i + 1));
            i += 1;
        } else {
            let mut j: usize = i + 1;
            while j < n && !is_whitespace(chars[j])
                invariant
                    n == chars.len(),
                    i < j <= n,
                    forall|k: int| i <= k < j ==> !is_white_space(chars[k]),
                decreases n - j,
            {
                j += 1;
            }
            proof {
                lemma_word_len(rest, j - i);
                assert(rest.take(j - i) == chars@.subrange(i as int, j as int));
                assert(rest.skip(j - i) == chars@.skip(j as int));
            }
            let word = string_of(&chars, i, j);
            let ghost before = views(list@);
            list.push(word);
            assert(views(list@) == before.push(word@));
            assert(before.push(word@) + words(chars@.skip(j as int)) == before + (seq![word@]
                + words(chars@.skip(j as int))));
            i = j;
        }
    }
    assert(words(chars@.skip(n as int)) == Seq::<Seq<char>>::empty());
    list
}

/// Appends the fields of one word to a list.
pub fn push_colon_fields(list: &mut Vec<String>, word: &str)
    ensures
        views(final(list)@) == views(old(list)@) + colon_fields(word@),
{
    let chars = chars_of(word);
    let n: usize = chars.len();
    let ghost start = views(list@);
    let mut i: usize = 0;
    assert(chars@.skip(0) == chars@);
    loop
        invariant_except_break
            views(list@) + colon_fields(chars@.skip(i as int)) == start + colon_fields(chars@),
        invariant
            chars@ == word@,
            n == chars.len(),
            i <= n,
        ensures
            views(list@) == start + colon_fields(chars@),
        decreases n - i,
    {
        let ghost rest = chars@.skip(i as int);
        let j: usize = find_from(&chars, i, ':');
        proof {
            assert(rest.take(j - i) == chars@.subrange(i as int, j as int));
        }
        let field = string_of(&chars, i, j);
        let ghost before = views(list@);
        list.push(field);
        assert(views(list@) == before.push(field@));
        if j < n {
            assert(rest.skip(j - i + 1) == chars@.skip(j + 1));
            assert(before.push(field@) + colon_fields(chars@.skip(j + 1)) == before + (seq![field@]
                + colon_fields(chars@.skip(j + 1))));
            i = j + 1;
        } else {
            assert(rest.take(j - i) == rest);
            assert(before.push(field@) == before + seq![rest]);
            break;
        }
    }
}

/// Splits a text into the fields of its words: white space and colons
/// both part the text, and only colons leave empty fields.
pub fn split_words_and_colons(text: &str) -> (list: Vec<String>)
    ensures
        views(list@) == fields_of_all(words(text@)),
{
    let word_list = split_words(text);
    let mut list: Vec<String> = Vec::new();
    let mut i: usize = 0;
    assert(views(list@) == Seq::<Seq<char>>::empty());
    assert(views(word_list@).take(0) == Seq::<Seq<char>>::empty());
    while i < word_list.len()
        invariant
            i <= word_list.len(),
            views(word_list@) == words(text@),
            views(list@) == fields_of_all(views(word_list@).take(i as int)),
        decreases word_list.len() - i,
    {
        proof {
            lemma_fields_of_all_push(views(word_list@).take(i as int), word_list[i as int]@);
            assert(views(word_list@).take(i as int).push(word_list[i as int]@) == views(
                word_list@,
            ).take(i + 1));
        }
        push_colon_fields(&mut list, word_list[i].as_str());
        i += 1;
    }
    assert(views(word_list@).take(word_list.len() as int) == views(word_list@));
    list
}

} // verus!
