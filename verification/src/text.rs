//! Command lines: Unicode white space, trimming, and splitting into words.
use vstd::prelude::*;
use crate::hex::push_char;

verus! {

broadcast use vstd::string::axiom_spec_iter, vstd::string::next_postcondition;

/// Whether `c` has Unicode's White_Space property, as `char::is_whitespace` tells.
pub open spec fn is_white_space(c: char) -> bool {
    let u = c as u32;
    ||| 0x9 <= u <= 0xd
    ||| u == 0x20
    ||| u == 0x85
    ||| u == 0xa0
    ||| u == 0x1680
    ||| 0x2000 <= u <= 0x200a
    ||| u == 0x2028
    ||| u == 0x2029
    ||| u == 0x202f
    ||| u == 0x205f
    ||| u == 0x3000
}

pub fn white_space(c: char) -> (ws: bool)
    ensures
        ws == is_white_space(c),
{
    let u = c as u32;
    (0x9 <= u && u <= 0xd) || u == 0x20 || u == 0x85 || u == 0xa0 || u == 0x1680 || (0x2000
        <= u && u <= 0x200a) || u == 0x2028 || u == 0x2029 || u == 0x202f || u == 0x205f || u
        == 0x3000
}

/// The text without its leading white space.
pub open spec fn trim_start_spec(s: Seq<char>) -> Seq<char>
    decreases s.len(),
{
    if s.len() > 0 && is_white_space(s[0]) {
        trim_start_spec(s.drop_first())
    } else {
        s
    }
}

/// The text without its trailing white space.
pub open spec fn trim_end_spec(s: Seq<char>) -> Seq<char>
    decreases s.len(),
{
    if s.len() > 0 && is_white_space(s.last()) {
        trim_end_spec(s.drop_last())
    } else {
        s
    }
}

/// The text without leading and trailing white space, as `str::trim` gives it.
pub open spec fn trim_spec(s: Seq<char>) -> Seq<char> {
    trim_end_spec(trim_start_spec(s))
}

/// The pieces between the spaces of `s`, as `str::split(" ")` gives them:
/// empty pieces included, and one empty piece for empty text.
pub open spec fn split_spaces_spec(s: Seq<char>) -> Seq<Seq<char>>
    decreases s.len(),
{
    if s.len() == 0 {
        seq![Seq::empty()]
    } else {
        let pieces = split_spaces_spec(s.drop_last());
        if s.last() == ' ' {
            pieces.push(Seq::empty())
        } else {
            pieces.update(pieces.len() - 1, pieces.last().push(s.last()))
        }
    }
}

/// The words of `s`, the runs of characters that are not white space, as
/// `str::split_whitespace` gives them.
pub open spec fn words_spec(s: Seq<char>) -> Seq<Seq<char>>
    decreases s.len(),
{
    if s.len() == 0 {
        Seq::empty()
    } else {
        let words = words_spec(s.drop_last());
        if is_white_space(s.last()) {
            words
        } else if s.len() >= 2 && !is_white_space(s[s.len() - 2]) {
            words.update(words.len() - 1, words.last().push(s.last()))
        } else {
            words.push(seq![s.last()])
        }
    }
}

/// The characters that Unicode gives the White_Space property, one by one:
/// tab, line feed, vertical tab, form feed, carriage return, space, next
/// line, no-break space, Ogham space mark, the eleven spaces from en quad to
/// hair space, line separator, paragraph separator, narrow no-break space,
/// medium mathematical space and ideographic space.
pub open spec fn unicode_white_space() -> Seq<char> {
    seq![
        '\u{9}', '\u{a}', '\u{b}', '\u{c}', '\u{d}', '\u{20}', '\u{85}', '\u{a0}', '\u{1680}',
        '\u{2000}', '\u{2001}', '\u{2002}', '\u{2003}', '\u{2004}', '\u{2005}', '\u{2006}',
        '\u{2007}', '\u{2008}', '\u{2009}', '\u{200a}', '\u{2028}', '\u{2029}', '\u{202f}',
        '\u{205f}', '\u{3000}',
    ]
}

/// White space is exactly Unicode's list of White_Space characters.
pub proof fn lemma_white_space_is_unicode_white_space(c: char)
    ensures
        is_white_space(c) <==> unicode_white_space().contains(c),
{
    let list = unicode_white_space();
    if is_white_space(c) {
        let u = c as u32;
        let k: int = if u <= 0xd {
            u - 0x9
        } else if u == 0x20 {
            5
        } else if u == 0x85 {
            6
        } else if u == 0xa0 {
            7
        } else if u == 0x1680 {
            8
        } else if u <= 0x200a {
            9 + (u - 0x2000)
        } else if u == 0x2028 {
            20
        } else if u == 0x2029 {
            21
        } else if u == 0x202f {
            22
        } else if u == 0x205f {
            23
        } else {
            24
        };
        assert(list[k] as u32 == u);
        assert(list[k] == c);
    } else {
        assert forall|i: int| 0 <= i < list.len() implies list[i] != c by {
            assert(is_white_space(list[i]));
        }
    }
}

/// Trimming the start of a text that ends in white space `tail`: the tail
/// stays when something else is left, and nothing is left otherwise.
proof fn lemma_trim_start_append_white(s: Seq<char>, tail: Seq<char>)
    requires
        forall|i: int| 0 <= i < tail.len() ==> is_white_space(#[trigger] tail[i]),
    ensures
        trim_start_spec(s + tail) == if trim_start_spec(s).len() > 0 {
            trim_start_spec(s) + tail
        } else {
            Seq::<char>::empty()
        },
    decreases s.len() + tail.len(),
{
    if s.len() > 0 {
        assert((s + tail)[0] == s[0]);
        if is_white_space(s[0]) {
            assert((s + tail).drop_first() =~= s.drop_first() + tail);
            lemma_trim_start_append_white(s.drop_first(), tail);
        }
    } else {
        assert(s + tail =~= tail);
        if tail.len() > 0 {
            assert(is_white_space(tail[0]));
            lemma_trim_start_append_white(s, tail.drop_first());
            assert(s + tail.drop_first() =~= tail.drop_first());
        }
    }
}

/// Trimming the end of a text that ends in white space drops that white space.
proof fn lemma_trim_end_append_white(s: Seq<char>, tail: Seq<char>)
    requires
        forall|i: int| 0 <= i < tail.len() ==> is_white_space(#[trigger] tail[i]),
    ensures
        trim_end_spec(s + tail) == trim_end_spec(s),
    decreases tail.len(),
{
    if tail.len() > 0 {
        assert(is_white_space(tail[tail.len() - 1]));
        assert((s + tail).last() == tail.last());
        assert((s + tail).drop_last() =~= s + tail.drop_last());
        lemma_trim_end_append_white(s, tail.drop_last());
    } else {
        assert(s + tail =~= s);
    }
}

/// Trimming ignores trailing white space of any kind; in particular a line
/// read with its carriage return and line feed trims as the line without them.
pub proof fn lemma_trim_ignores_trailing_white_space(s: Seq<char>, tail: Seq<char>)
    requires
        forall|i: int| 0 <= i < tail.len() ==> is_white_space(#[trigger] tail[i]),
    ensures
        trim_spec(s + tail) == trim_spec(s),
        trim_spec(s + seq!['\r', '\n']) == trim_spec(s),
{
    lemma_trim_start_append_white(s, tail);
    if trim_start_spec(s).len() > 0 {
        lemma_trim_end_append_white(trim_start_spec(s), tail);
    }
    let crlf = seq!['\r', '\n'];
    assert(is_white_space(crlf[0]) && is_white_space(crlf[1]));
    lemma_trim_start_append_white(s, crlf);
    if trim_start_spec(s).len() > 0 {
        lemma_trim_end_append_white(trim_start_spec(s), crlf);
    }
}

pub proof fn lemma_split_spaces_nonempty(s: Seq<char>)
    ensures
        split_spaces_spec(s).len() >= 1,
    decreases s.len(),
{
    if s.len() > 0 {
        lemma_split_spaces_nonempty(s.drop_last());
    }
}

proof fn lemma_words_nonempty(s: Seq<char>)
    ensures
        s.len() > 0 && !is_white_space(s.last()) ==> words_spec(s).len() >= 1,
    decreases s.len(),
{
    if s.len() > 0 {
        lemma_words_nonempty(s.drop_last());
    }
}

/// The views of some strings.
pub open spec fn views(strings: Seq<String>) -> Seq<Seq<char>> {
    strings.map_values(|w: String| w@)
}

/// The characters of `s`, in order.
pub fn chars_of(s: &str) -> (chars: Vec<char>)
    ensures
        chars@ == s@,
{
    let mut out: Vec<char> = Vec::new();
    for c in it: s.chars()
        invariant
            out@ == it.seq().take(it.index() as int),
    {
        out.push(c);
    }
    out
}

/// The characters `chars[start..end]` as a string.
pub fn string_of(chars: &Vec<char>, start: usize, end: usize) -> (s: String)
    requires
        start <= end <= chars@.len(),
    ensures
        s@ == chars@.subrange(start as int, end as int),
{
    let mut s = String::new();
    let mut i = start;
    while i < end
        invariant
            start <= i <= end <= chars@.len(),
            s@ =~= chars@.subrange(start as int, i as int),
        decreases end - i,
    {
        push_char(&mut s, chars[i]);
        i = i + 1;
        assert(s@ =~= chars@.subrange(start as int, i as int));
    }
    s
}

/// The bounds of the text that is left once leading and trailing white space
/// is dropped.
pub fn trim_bounds(chars: &Vec<char>) -> (bounds: (usize, usize))
    ensures
        bounds.0 <= bounds.1 <= chars@.len(),
        chars@.subrange(bounds.0 as int, bounds.1 as int) == trim_spec(chars@),
{
    let n = chars.len();
    let mut i: usize = 0;
    assert(chars@.skip(0) =~= chars@);
    while i < n && white_space(chars[i])
        invariant
            n == chars@.len(),
            i <= n,
            trim_start_spec(chars@) == trim_start_spec(chars@.skip(i as int)),
        decreases n - i,
    {
        assert(chars@.skip(i as int).drop_first() =~= chars@.skip(i + 1));
        i = i + 1;
    }
    assert(trim_start_spec(chars@.skip(i as int)) == chars@.skip(i as int));
    let ghost start = chars@.skip(i as int);
    let mut j: usize = n;
    while j > i && white_space(chars[j - 1])
        invariant
            n == chars@.len(),
            i <= j <= n,
            start == chars@.skip(i as int),
            trim_end_spec(start) == trim_end_spec(chars@.subrange(i as int, j as int)),
        decreases j,
    {
        assert(chars@.subrange(i as int, j as int).drop_last() =~= chars@.subrange(
            i as int,
            j - 1,
        ));
        j = j - 1;
    }
    assert(chars@.skip(i as int) =~= chars@.subrange(i as int, n as int));
    assert(trim_end_spec(chars@.subrange(i as int, j as int)) == chars@.subrange(
        i as int,
        j as int,
    ));
    (i, j)
}

/// The pieces between the spaces of `chars[start..end]`.
pub fn split_spaces(chars: &Vec<char>, start: usize, end: usize) -> (pieces: Vec<String>)
    requires
        start <= end <= chars@.len(),
    ensures
        views(pieces@) == split_spaces_spec(chars@.subrange(start as int, end as int)),
{
    let ghost text = chars@.subrange(start as int, end as int);
    let mut pieces: Vec<String> = Vec::new();
    let mut current = String::new();
    let mut i = start;
    assert(text.take(0) =~= Seq::<char>::empty());
    while i < end
        invariant
            start <= i <= end <= chars@.len(),
            text == chars@.subrange(start as int, end as int),
            views(pieces@).push(current@) =~= split_spaces_spec(text.take(i - start)),
        decreases end - i,
    {
        let c = chars[i];
        let ghost before = text.take(i - start);
        proof {
            lemma_split_spaces_nonempty(before);
        }
        assert(text.take(i - start + 1).drop_last() =~= before);
        assert(text.take(i - start + 1).last() == c);
        if c == ' ' {
            let done = current;
            pieces.push(done);
            current = String::new();
            assert(views(pieces@) =~= views(pieces@.drop_last()).push(done@));
        } else {
            push_char(&mut current, c);
        }
        i = i + 1;
        assert(views(pieces@).push(current@) =~= split_spaces_spec(text.take(i - start)));
    }
    assert(text.take(end - start) =~= text);
    pieces.push(current);
    assert(views(pieces@) =~= split_spaces_spec(text));
    pieces
}

/// The words of `chars`, the runs of characters that are not white space.
pub fn words(chars: &Vec<char>) -> (words: Vec<String>)
    ensures
        views(words@) == words_spec(chars@),
{
    let mut words: Vec<String> = Vec::new();
    let mut i: usize = 0;
    assert(chars@.take(0) =~= Seq::<char>::empty());
    while i < chars.len()
        invariant
            i <= chars@.len(),
            views(words@) =~= words_spec(chars@.take(i as int)),
        decreases chars@.len() - i,
    {
        let c = chars[i];
        let ghost before = chars@.take(i as int);
        assert(chars@.take(i + 1).drop_last() =~= before);
        assert(chars@.take(i + 1).last() == c);
        if white_space(c) {
        } else if i >= 1 && !white_space(chars[i - 1]) {
            proof {
                lemma_words_nonempty(before);
                assert(before.last() == chars@[i - 1]);
            }
            let last = words.len() - 1;
            let mut word = words.remove(last);
            push_char(&mut word, c);
            words.push(word);
            assert(chars@.take(i + 1)[i - 1] == chars@[i - 1]);
        } else {
            let mut word = String::new();
            push_char(&mut word, c);
            words.push(word);
            assert(word@ =~= seq![c]);
        }
        i = i + 1;
        assert(views(words@) =~= words_spec(chars@.take(i as int)));
    }
    assert(chars@.take(i as int) =~= chars@);
    words
}

/// Whether the string `w` reads `word`.
pub fn is_word(w: &String, word: &str) -> (same: bool)
    ensures
        same == (w@ == word@),
{
    *w == word.to_owned()
}

/// Whether `s` begins with `prefix`, as `str::starts_with` tells.
pub open spec fn starts_with_spec(s: Seq<char>, prefix: Seq<char>) -> bool {
    s.len() >= prefix.len() && s.subrange(0, prefix.len() as int) == prefix
}

pub fn starts_with(s: &Vec<char>, prefix: &str) -> (starts: bool)
    ensures
        starts == starts_with_spec(s@, prefix@),
{
    let p = chars_of(prefix);
    if s.len() < p.len() {
        return false;
    }
    let mut i: usize = 0;
    while i < p.len()
        invariant
            p@ == prefix@,
            s@.len() >= p@.len(),
            i <= p@.len(),
            forall|j: int| 0 <= j < i ==> s@[j] == p@[j],
        decreases p@.len() - i,
    {
        if s[i] != p[i] {
            assert(s@.subrange(0, p@.len() as int)[i as int] != p@[i as int]);
            return false;
        }
        i = i + 1;
    }
    assert(s@.subrange(0, p@.len() as int) =~= p@);
    true
}

} // verus!
