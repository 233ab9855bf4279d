//! Characters and character sequences: white space, trimming, comparison.

use vstd::prelude::*;
use vstd::string::*;

verus! {

/// Whether `c` is white space: a character that Unicode classes as White_Space.
pub open spec fn is_space(c: char) -> bool {
    ||| '\u{9}' <= c <= '\u{d}'
    ||| c == ' '
    ||| c == '\u{85}'
    ||| c == '\u{a0}'
    ||| c == '\u{1680}'
    ||| '\u{2000}' <= c <= '\u{200a}'
    ||| c == '\u{2028}'
    ||| c == '\u{2029}'
    ||| c == '\u{202f}'
    ||| c == '\u{205f}'
    ||| c == '\u{3000}'
}

/// How many white-space characters `s` begins with.
pub open spec fn leading_spaces(s: Seq<char>) -> nat
    decreases s.len(),
{
    if s.len() > 0 && is_space(s[0]) {
        1 + leading_spaces(s.drop_first())
    } else {
        0
    }
}

/// How many white-space characters `s` ends with.
pub open spec fn trailing_spaces(s: Seq<char>) -> nat
    decreases s.len(),
{
    if s.len() > 0 && is_space(s.last()) {
        1 + trailing_spaces(s.drop_last())
    } else {
        0
    }
}

/// `s` without the white space it begins with.
pub open spec fn trim_start(s: Seq<char>) -> Seq<char> {
    s.skip(leading_spaces(s) as int)
}

/// `s` without the white space it ends with.
pub open spec fn trim_end(s: Seq<char>) -> Seq<char> {
    s.take(s.len() - trailing_spaces(s))
}

/// `s` without the white space at either end.
pub open spec fn trimmed(s: Seq<char>) -> Seq<char> {
    trim_end(trim_start(s))
}

/// How many characters that are no white space `s` begins with.
pub open spec fn word_len(s: Seq<char>) -> nat
    decreases s.len(),
{
    if s.len() > 0 && !is_space(s[0]) {
        1 + word_len(s.drop_first())
    } else {
        0
    }
}

/// The first word of `s`: after the white space that `s` begins with, the
/// characters up to the next white space. It is empty where `s` holds
/// nothing but white space.
pub open spec fn first_word(s: Seq<char>) -> Seq<char> {
    trim_start(s).take(word_len(trim_start(s)) as int)
}

/// What follows the first word of `s`.
pub open spec fn after_first_word(s: Seq<char>) -> Seq<char> {
    trim_start(s).skip(word_len(trim_start(s)) as int)
}

/// What is left of `s` once its tags are taken out. A tag begins with `<`
/// and ends with the next `>`, or with `s` where none follows. `inside` says
/// whether `s` begins inside a tag.
pub open spec fn outside_tags(s: Seq<char>, inside: bool) -> Seq<char>
    decreases s.len(),
{
    if s.len() == 0 {
        s
    } else if inside {
        outside_tags(s.drop_first(), s[0] != '>')
    } else if s[0] == '<' {
        outside_tags(s.drop_first(), true)
    } else {
        seq![s[0]] + outside_tags(s.drop_first(), false)
    }
}

/// The text that the HTML `s` shows: `s` without its tags.
pub open spec fn shown(s: Seq<char>) -> Seq<char> {
    outside_tags(s, false)
}

/// `n` white-space characters open `s`, and the one after them, if any, is none.
pub proof fn lemma_leading_spaces(s: Seq<char>, n: int)
    requires
        0 <= n <= s.len(),
        forall|i: int| 0 <= i < n ==> is_space(#[trigger] s[i]),
        n == s.len() || !is_space(s[n]),
    ensures
        leading_spaces(s) == n,
    decreases n,
{
    if n > 0 {
        let rest = s.drop_first();
        assert forall|i: int| 0 <= i < n - 1 implies is_space(#[trigger] rest[i]) by {
            assert(rest[i] == s[i + 1]);
        }
        lemma_leading_spaces(rest, n - 1);
    }
}

/// `n` white-space characters close `s`, and the one before them, if any, is none.
pub proof fn lemma_trailing_spaces(s: Seq<char>, n: int)
    requires
        0 <= n <= s.len(),
        forall|i: int| s.len() - n <= i < s.len() ==> is_space(#[trigger] s[i]),
        n == s.len() || !is_space(s[s.len() - n - 1]),
    ensures
        trailing_spaces(s) == n,
    decreases n,
{
    if n > 0 {
        let rest = s.drop_last();
        assert forall|i: int| rest.len() - (n - 1) <= i < rest.len() implies is_space(
            #[trigger] rest[i],
        ) by {
            assert(rest[i] == s[i]);
        }
        lemma_trailing_spaces(rest, n - 1);
    }
}

/// The characters that [`leading_spaces`] counts are white space, and `s`
/// has at least that many.
pub proof fn lemma_leading_spaces_are_spaces(s: Seq<char>)
    ensures
        leading_spaces(s) <= s.len(),
        forall|i: int| 0 <= i < leading_spaces(s) ==> is_space(#[trigger] s[i]),
    decreases s.len(),
{
    if s.len() > 0 && is_space(s[0]) {
        let rest = s.drop_first();
        lemma_leading_spaces_are_spaces(rest);
        assert forall|i: int| 0 <= i < leading_spaces(s) implies is_space(#[trigger] s[i]) by {
            if i > 0 {
                assert(s[i] == rest[i - 1]);
            }
        }
    }
}

/// The characters that [`trailing_spaces`] counts are white space, and `s`
/// has at least that many.
pub proof fn lemma_trailing_spaces_are_spaces(s: Seq<char>)
    ensures
        trailing_spaces(s) <= s.len(),
        forall|i: int| s.len() - trailing_spaces(s) <= i < s.len() ==> is_space(#[trigger] s[i]),
    decreases s.len(),
{
    if s.len() > 0 && is_space(s.last()) {
        let rest = s.drop_last();
        lemma_trailing_spaces_are_spaces(rest);
        assert forall|i: int| s.len() - trailing_spaces(s) <= i < s.len() implies is_space(
            #[trigger] s[i],
        ) by {
            if i < s.len() - 1 {
                assert(s[i] == rest[i]);
            }
        }
    }
}

/// HTML that holds no `<` shows all that it holds.
pub proof fn lemma_shown_without_tags(s: Seq<char>)
    requires
        forall|i: int| 0 <= i < s.len() ==> #[trigger] s[i] != '<',
    ensures
        shown(s) == s,
    decreases s.len(),
{
    if s.len() > 0 {
        let rest = s.drop_first();
        assert forall|i: int| 0 <= i < rest.len() implies #[trigger] rest[i] != '<' by {
            assert(rest[i] == s[i + 1]);
        }
        lemma_shown_without_tags(rest);
        assert(seq![s[0]] + rest == s);
    }
}

/// `n` characters that are no white space open `s`, and the one after them,
/// if any, is white space.
pub proof fn lemma_word_len(s: Seq<char>, n: int)
    requires
        0 <= n <= s.len(),
        forall|i: int| 0 <= i < n ==> !is_space(#[trigger] s[i]),
        n == s.len() || is_space(s[n]),
    ensures
        word_len(s) == n,
    decreases n,
{
    if n > 0 {
        let rest = s.drop_first();
        assert forall|i: int| 0 <= i < n - 1 implies !is_space(#[trigger] rest[i]) by {
            assert(rest[i] == s[i + 1]);
        }
        lemma_word_len(rest, n - 1);
    }
}

/// Whether `c` is white space.
#[verifier::when_used_as_spec(is_space)]
pub fn is_whitespace(c: char) -> (b: bool)
    ensures
        b == is_space(c),
{
    (c >= '\u{9}' && c <= '\u{d}') || c == ' ' || c == '\u{85}' || c == '\u{a0}' || c == '\u{1680}'
        || (c >= '\u{2000}' && c <= '\u{200a}') || c == '\u{2028}' || c == '\u{2029}' || c
        == '\u{202f}' || c == '\u{205f}' || c == '\u{3000}'
}

/// The characters of `s`, in order.
pub fn chars_of(s: &str) -> (chars: Vec<char>)
    ensures
        chars@ == s@,
{
    let mut chars: Vec<char> = Vec::new();
    for c in it: s.chars()
        invariant
            it.seq() == s@,
            chars@ == s@.take(it.index()),
    {
        proof {
            assert(s@.take(it.index() + 1) == s@.take(it.index()).push(c));
        }
        chars.push(c);
    }
    chars
}

/// Where the text of `chars` begins and ends once the white space at both
/// ends is left out.
pub fn trim_bounds(chars: &Vec<char>) -> (bounds: (usize, usize))
    ensures
        bounds.0 <= bounds.1 <= chars.len(),
        chars@.subrange(bounds.0 as int, bounds.1 as int) == trimmed(chars@),
{
    let n = chars.len();
    let mut from: usize = 0;
    while from < n && is_whitespace(chars[from])
        invariant
            n == chars.len(),
            from <= n,
            forall|i: int| 0 <= i < from ==> is_space(#[trigger] chars@[i]),
        decreases n - from,
    {
        from = from + 1;
    }
    let mut to: usize = n;
    while to > from && is_whitespace(chars[to - 1])
        invariant
            n == chars.len(),
            from <= to <= n,
            forall|i: int| to <= i < n ==> is_space(#[trigger] chars@[i]),
        decreases to,
    {
        to = to - 1;
    }
    proof {
        let s = chars@;
        lemma_leading_spaces(s, from as int);
        let rest = trim_start(s);
        assert forall|i: int| rest.len() - (n - to) <= i < rest.len() implies is_space(
            #[trigger] rest[i],
        ) by {
            assert(rest[i] == s[i + from]);
        }
        if to > from {
            assert(rest[rest.len() - (n - to) - 1] == s[to - 1]);
        }
        lemma_trailing_spaces(rest, n - to);
        assert(s.subrange(from as int, to as int) == trimmed(s));
    }
    (from, to)
}

/// Where the first word of what `chars` holds from `from` on begins and
/// ends. Both are the same where no word is left.
pub(crate) fn word_bounds(chars: &Vec<char>, from: usize) -> (bounds: (usize, usize))
    requires
        from <= chars.len(),
    ensures
        from <= bounds.0 <= bounds.1 <= chars.len(),
        chars@.subrange(bounds.0 as int, bounds.1 as int) == first_word(chars@.skip(from as int)),
        chars@.skip(bounds.1 as int) == after_first_word(chars@.skip(from as int)),
{
    let n = chars.len();
    let mut begin: usize = from;
    while begin < n && is_whitespace(chars[begin])
        invariant
            n == chars.len(),
            from <= begin <= n,
            forall|i: int| from <= i < begin ==> is_space(#[trigger] chars@[i]),
        decreases n - begin,
    {
        begin = begin + 1;
    }
    let mut end: usize = begin;
    while end < n && !is_whitespace(chars[end])
        invariant
            n == chars.len(),
            begin <= end <= n,
            forall|i: int| begin <= i < end ==> !is_space(#[trigger] chars@[i]),
        decreases n - end,
    {
        end = end + 1;
    }
    proof {
        let s = chars@.skip(from as int);
        assert forall|i: int| 0 <= i < begin - from implies is_space(#[trigger] s[i]) by {
            assert(s[i] == chars@[i + from]);
        }
        lemma_leading_spaces(s, begin - from);
        let rest = trim_start(s);
        assert(rest == chars@.skip(begin as int));
        assert forall|i: int| 0 <= i < end - begin implies !is_space(#[trigger] rest[i]) by {
            assert(rest[i] == chars@[i + begin]);
        }
        lemma_word_len(rest, end - begin);
        assert(chars@.subrange(begin as int, end as int) == first_word(s));
        assert(chars@.skip(end as int) == after_first_word(s));
    }
    (begin, end)
}

/// A string of the characters of `chars`, in order. The call is
/// `String::from_iter`, which collects what the iterator hands out.
#[verifier::external_body]
pub(crate) fn string_of(chars: &Vec<char>) -> (s: String)
    ensures
        s@ == chars@,
{
    String::from_iter(chars.iter())
}

/// The text that the HTML `s` shows.
pub fn strip_tags(s: &str) -> (text: String)
    ensures
        text@ == shown(s@),
{
    let chars = chars_of(s);
    let mut kept: Vec<char> = Vec::new();
    let mut inside = false;
    let mut i: usize = 0;
    proof {
        assert(chars@.skip(0) == chars@);
    }
    while i < chars.len()
        invariant
            i <= chars.len(),
            chars@ == s@,
            shown(s@) == kept@ + outside_tags(chars@.skip(i as int), inside),
        decreases chars.len() - i,
    {
        let c = chars[i];
        proof {
            assert(chars@.skip(i as int)[0] == c);
            assert(chars@.skip(i as int).drop_first() == chars@.skip(i + 1));
        }
        if inside {
            inside = c != '>';
        } else if c == '<' {
            inside = true;
        } else {
            proof {
                let rest = outside_tags(chars@.skip(i + 1), false);
                assert(kept@ + (seq![c] + rest) == kept@.push(c) + rest);
            }
            kept.push(c);
        }
        i = i + 1;
    }
    proof {
        assert(kept@ + Seq::<char>::empty() == kept@);
    }
    string_of(&kept)
}

/// What `str::to_lowercase` returns for `s`: its lowercase equivalent, as
/// Unicode defines it.
pub uninterp spec fn lowercase(s: Seq<char>) -> Seq<char>;

/// The lowercase equivalent of `s`. The call is `str::to_lowercase`.
#[verifier::external_body]
pub(crate) fn to_lowercase(s: &str) -> (lower: String)
    ensures
        lower@ == lowercase(s@),
{
    s.to_lowercase()
}

/// `s` without the white space at either end.
pub fn trim(s: &str) -> (t: &str)
    ensures
        t@ == trimmed(s@),
{
    let chars = chars_of(s);
    let (from, to) = trim_bounds(&chars);
    s.substring_char(from, to)
}

/// Whether `a` and `b` hold the same characters.
pub fn same_text(a: &str, b: &str) -> (same: bool)
    ensures
        same == (a@ == b@),
{
    let x = chars_of(a);
    let y = chars_of(b);
    if x.len() != y.len() {
        return false;
    }
    let mut i: usize = 0;
    while i < x.len()
        invariant
            x@ == a@,
            y@ == b@,
            x.len() == y.len(),
            i <= x.len(),
            x@.take(i as int) == y@.take(i as int),
        decreases x.len() - i,
    {
        if x[i] != y[i] {
            assert(a@[i as int] != b@[i as int]);
            return false;
        }
        proof {
            assert(x@.take(i + 1) == x@.take(i as int).push(x@[i as int]));
            assert(y@.take(i + 1) == y@.take(i as int).push(y@[i as int]));
        }
        i = i + 1;
    }
    proof {
        assert(x@.take(x.len() as int) == x@);
        assert(y@.take(y.len() as int) == y@);
    }
    true
}

} // verus!
