//! Text primitives shared by the extractor and the presenter.
//!
//! A string is modelled by its view, the sequence of its characters. Each
//! function that computes a text states which text, over such sequences.

use vstd::prelude::*;
use vstd::string::StringExecFns;

verus! {

/// `String::push` appends one character to the end of the string.
pub assume_specification[ String::push ](s: &mut String, c: char)
    ensures
        final(s)@ == old(s)@.push(c),
;

/// The characters of `s`, in order.
pub fn chars_of(s: &str) -> (chars: Vec<char>)
    ensures
        chars@ == s@,
{
    let mut chars: Vec<char> = Vec::new();
    for c in it: s.chars()
        invariant
            it.seq() == s@,
            chars@ == s@.take(it.index() as int),
    {
        chars.push(c);
    }
    chars
}

/// The string made of `chars[from..to]`.
pub(crate) fn string_of(chars: &Vec<char>, from: usize, to: usize) -> (s: String)
    requires
        from <= to <= chars.len(),
    ensures
        s@ == chars@.subrange(from as int, to as int),
{
    let mut s = String::new();
    let mut i: usize = from;
    while i < to
        invariant
            from <= i <= to <= chars.len(),
            s@ == chars@.subrange(from as int, i as int),
        decreases to - i,
    {
        s.push(chars[i]);
        i += 1;
    }
    s
}

/// Whether `c` has the Unicode property White_Space.
pub open spec fn is_white_space(c: char) -> bool {
    let u: u32 = c as u32;
    ||| 0x09 <= u <= 0x0D
    ||| u == 0x20
    ||| u == 0x85
    ||| u == 0xA0
    ||| u == 0x1680
    ||| 0x2000 <= u <= 0x200A
    ||| u == 0x2028
    ||| u == 0x2029
    ||| u == 0x202F
    ||| u == 0x205F
    ||| u == 0x3000
}

/// Decides [`is_white_space`].
pub fn is_white_space_char(c: char) -> (b: bool)
    ensures
        b == is_white_space(c),
{
    let u: u32 = c as u32;
    (0x09 <= u && u <= 0x0D) || u == 0x20 || u == 0x85 || u == 0xA0 || u == 0x1680 || (0x2000 <= u
        && u <= 0x200A) || u == 0x2028 || u == 0x2029 || u == 0x202F || u == 0x205F || u == 0x3000
}

/// `s` without its leading white space.
pub open spec fn trimmed_start(s: Seq<char>) -> Seq<char>
    decreases s.len(),
{
    if s.len() > 0 && is_white_space(s[0]) {
        trimmed_start(s.skip(1))
    } else {
        s
    }
}

/// `s` without its trailing white space.
pub open spec fn trimmed_end(s: Seq<char>) -> Seq<char>
    decreases s.len(),
{
    if s.len() > 0 && is_white_space(s.last()) {
        trimmed_end(s.drop_last())
    } else {
        s
    }
}

/// `s` without leading and trailing white space.
pub open spec fn trimmed(s: Seq<char>) -> Seq<char> {
    trimmed_end(trimmed_start(s))
}

/// Dropping `n` leading white-space characters does not change what remains
/// after trimming the start.
proof fn lemma_trimmed_start_skip(s: Seq<char>, n: int)
    requires
        0 <= n <= s.len(),
        forall|i: int| 0 <= i < n ==> is_white_space(s[i]),
    ensures
        trimmed_start(s) == trimmed_start(s.skip(n)),
    decreases n,
{
    if n > 0 {
        lemma_trimmed_start_skip(s.skip(1), n - 1);
        assert(s.skip(1).skip(n - 1) =~= s.skip(n));
    } else {
        assert(s.skip(0) =~= s);
    }
}

/// Dropping trailing white-space characters does not change what remains
/// after trimming the end.
proof fn lemma_trimmed_end_take(s: Seq<char>, n: int)
    requires
        0 <= n <= s.len(),
        forall|i: int| n <= i < s.len() ==> is_white_space(s[i]),
    ensures
        trimmed_end(s) == trimmed_end(s.take(n)),
    decreases s.len() - n,
{
    if n < s.len() {
        lemma_trimmed_end_take(s.drop_last(), n);
        assert(s.drop_last().take(n) =~= s.take(n));
    } else {
        assert(s.take(n) =~= s);
    }
}

/// What is left after trimming neither begins nor ends with white space, and
/// trimming it again changes nothing.
pub proof fn lemma_trimmed_is_trim(s: Seq<char>)
    ensures
        trimmed(s).len() > 0 ==> !is_white_space(trimmed(s)[0]) && !is_white_space(
            trimmed(s).last(),
        ),
        trimmed(trimmed(s)) == trimmed(s),
{
    let rest = trimmed_start(s);
    lemma_trimmed_start_begins_with_text(s);
    lemma_trimmed_end_is_prefix(rest);
}

/// What is left after trimming the start does not begin with white space.
proof fn lemma_trimmed_start_begins_with_text(s: Seq<char>)
    ensures
        trimmed_start(s).len() > 0 ==> !is_white_space(trimmed_start(s)[0]),
    decreases s.len(),
{
    if s.len() > 0 && is_white_space(s[0]) {
        lemma_trimmed_start_begins_with_text(s.skip(1));
    }
}

/// What is left after trimming the end is a prefix that does not end with
/// white space.
proof fn lemma_trimmed_end_is_prefix(s: Seq<char>)
    ensures
        trimmed_end(s).len() <= s.len(),
        trimmed_end(s) == s.take(trimmed_end(s).len() as int),
        trimmed_end(s).len() > 0 ==> !is_white_space(trimmed_end(s).last()),
    decreases s.len(),
{
    if s.len() > 0 && is_white_space(s.last()) {
        let front = s.drop_last();
        lemma_trimmed_end_is_prefix(front);
        assert(front.take(trimmed_end(front).len() as int) =~= s.take(
            trimmed_end(front).len() as int,
        ));
    } else {
        assert(s.take(s.len() as int) =~= s);
    }
}

/// The text of `s` without leading and trailing white space.
pub fn trim(s: &str) -> (text: String)
    ensures
        text@ == trimmed(s@),
{
    let chars = chars_of(s);
    let mut start: usize = 0;
    while start < chars.len() && is_white_space_char(chars[start])
        invariant
            start <= chars.len(),
            forall|i: int| 0 <= i < start ==> is_white_space(chars@[i]),
        decreases chars.len() - start,
    {
        start += 1;
    }
    let mut end: usize = chars.len();
    while end > start && is_white_space_char(chars[end - 1])
        invariant
            start <= end <= chars.len(),
            forall|i: int| end <= i < chars.len() ==> is_white_space(chars@[i]),
        decreases end,
    {
        end -= 1;
    }
    proof {
        let rest = chars@.skip(start as int);
        lemma_trimmed_start_skip(chars@, start as int);
        assert(trimmed_start(rest) == rest);
        lemma_trimmed_end_take(rest, end - start);
        assert(rest.take(end - start) =~= chars@.subrange(start as int, end as int));
    }
    string_of(&chars, start, end)
}

/// Whether `marker` stands in `s` at index `i`.
pub open spec fn occurs_at(s: Seq<char>, marker: Seq<char>, i: int) -> bool {
    0 <= i && i + marker.len() <= s.len() && s.subrange(i, i + marker.len()) == marker
}

/// The part of `s` before the first occurrence of `marker`; all of `s` where
/// `marker` does not occur.
pub open spec fn text_before(s: Seq<char>, marker: Seq<char>) -> Seq<char>
    decreases s.len(),
{
    if occurs_at(s, marker, 0) {
        Seq::empty()
    } else if s.len() == 0 {
        s
    } else {
        seq![s[0]] + text_before(s.skip(1), marker)
    }
}

/// An occurrence in `s` after its first `k` characters is an occurrence in
/// `s`, `k` indices further on.
proof fn lemma_occurs_at_skip(s: Seq<char>, marker: Seq<char>, k: int, j: int)
    requires
        0 <= k <= s.len(),
        0 <= j,
    ensures
        occurs_at(s.skip(k), marker, j) == occurs_at(s, marker, j + k),
{
    let m = marker.len() as int;
    if j + m <= s.len() - k {
        assert(s.skip(k).subrange(j, j + m) =~= s.subrange(j + k, j + k + m));
    }
}

/// Where `marker` occurs at none of the first `n` indices of `s`, the text
/// before it starts with the first `n` characters of `s`.
proof fn lemma_text_before_skip(s: Seq<char>, marker: Seq<char>, n: int)
    requires
        0 <= n <= s.len(),
        forall|j: int| 0 <= j < n ==> !occurs_at(s, marker, j),
    ensures
        text_before(s, marker) == s.take(n) + text_before(s.skip(n), marker),
    decreases n,
{
    if n == 0 {
        assert(s.skip(0) =~= s);
        assert(s.take(0) + text_before(s, marker) =~= text_before(s, marker));
    } else {
        let rest = s.skip(1);
        assert(!occurs_at(s, marker, 0));
        assert forall|j: int| 0 <= j < n - 1 implies !occurs_at(rest, marker, j) by {
            lemma_occurs_at_skip(s, marker, 1, j);
        }
        lemma_text_before_skip(rest, marker, n - 1);
        assert(rest.skip(n - 1) =~= s.skip(n));
        assert(seq![s[0]] + (rest.take(n - 1) + text_before(s.skip(n), marker)) =~= s.take(n)
            + text_before(s.skip(n), marker));
    }
}

/// Where `marker` occurs nowhere in `s`, the text before it is all of `s`.
proof fn lemma_text_before_none(s: Seq<char>, marker: Seq<char>)
    requires
        forall|j: int| 0 <= j <= s.len() ==> !occurs_at(s, marker, j),
    ensures
        text_before(s, marker) == s,
    decreases s.len(),
{
    if s.len() > 0 {
        let rest = s.skip(1);
        assert(!occurs_at(s, marker, 0));
        assert forall|j: int| 0 <= j <= rest.len() implies !occurs_at(rest, marker, j) by {
            lemma_occurs_at_skip(s, marker, 1, j);
        }
        lemma_text_before_none(rest, marker);
        assert(seq![s[0]] + rest =~= s);
    } else {
        assert(!occurs_at(s, marker, 0));
    }
}

/// The text before the first occurrence of `marker` is the one prefix of `s`
/// in which no occurrence starts and which ends at an occurrence or at the
/// end of `s`.
pub proof fn lemma_text_before_is_first_occurrence(s: Seq<char>, marker: Seq<char>)
    ensures
        text_before(s, marker).len() <= s.len(),
        text_before(s, marker) == s.take(text_before(s, marker).len() as int),
        forall|j: int| 0 <= j < text_before(s, marker).len() ==> !occurs_at(s, marker, j),
        text_before(s, marker).len() == s.len() || occurs_at(
            s,
            marker,
            text_before(s, marker).len() as int,
        ),
    decreases s.len(),
{
    if occurs_at(s, marker, 0) {
        assert(s.take(0) =~= Seq::<char>::empty());
    } else if s.len() == 0 {
        assert(s.take(0) =~= s);
    } else {
        let rest = s.skip(1);
        let n = text_before(rest, marker).len() as int;
        lemma_text_before_is_first_occurrence(rest, marker);
        assert(seq![s[0]] + rest.take(n) =~= s.take(n + 1));
        assert forall|j: int| 0 <= j < n + 1 implies !occurs_at(s, marker, j) by {
            if j > 0 {
                lemma_occurs_at_skip(s, marker, 1, j - 1);
            }
        }
        lemma_occurs_at_skip(s, marker, 1, n);
    }
}

/// Whether `marker` stands in `chars` at index `at`.
fn found_at(chars: &Vec<char>, marker: &Vec<char>, at: usize) -> (found: bool)
    requires
        at + marker.len() <= chars.len(),
    ensures
        found == occurs_at(chars@, marker@, at as int),
{
    let mut k: usize = 0;
    while k < marker.len()
        invariant
            k <= marker.len(),
            at + marker.len() <= chars.len(),
            forall|j: int| 0 <= j < k ==> chars@[at + j] == marker@[j],
        decreases marker.len() - k,
    {
        if chars[at + k] != marker[k] {
            proof {
                assert(chars@.subrange(at as int, at + marker.len())[k as int] == chars@[at + k]);
            }
            return false;
        }
        k += 1;
    }
    proof {
        assert(chars@.subrange(at as int, at + marker.len()) =~= marker@);
    }
    true
}

/// The part of `s` before the first occurrence of `marker`; all of `s` where
/// `marker` does not occur.
pub fn before_marker(s: &str, marker: &str) -> (prefix: String)
    ensures
        prefix@ == text_before(s@, marker@),
{
    let chars = chars_of(s);
    let pattern = chars_of(marker);
    let mut i: usize = 0;
    loop
        invariant
            i <= chars.len(),
            chars@ == s@,
            pattern@ == marker@,
            forall|j: int| 0 <= j < i ==> !occurs_at(chars@, pattern@, j),
        ensures
            forall|j: int| 0 <= j <= chars.len() ==> !occurs_at(chars@, pattern@, j),
        decreases chars.len() - i,
    {
        if pattern.len() > chars.len() - i {
            break ;
        }
        if found_at(&chars, &pattern, i) {
            proof {
                lemma_text_before_skip(chars@, pattern@, i as int);
                lemma_occurs_at_skip(chars@, pattern@, i as int, 0);
                assert(chars@.take(i as int) + Seq::<char>::empty() =~= chars@.subrange(
                    0,
                    i as int,
                ));
            }
            return string_of(&chars, 0, i);
        }
        proof {
            if i == chars.len() {
                assert(chars@.subrange(i as int, i as int) =~= pattern@);
            }
        }
        i += 1;
    }
    proof {
        lemma_text_before_none(chars@, pattern@);
        assert(chars@.subrange(0, chars@.len() as int) =~= chars@);
    }
    string_of(&chars, 0, chars.len())
}

/// Whether `c` is one of the marks that wrap a temperature difference:
/// `[`, `+` or `]`.
pub open spec fn is_diff_mark(c: char) -> bool {
    c == '[' || c == '+' || c == ']'
}

/// `s` without the marks `[`, `+` and `]`, wherever they stand.
pub open spec fn without_diff_marks(s: Seq<char>) -> Seq<char> {
    s.filter(|c: char| !is_diff_mark(c))
}

/// The text of `s` without the marks `[`, `+` and `]`.
pub fn strip_diff_marks(s: &str) -> (text: String)
    ensures
        text@ == without_diff_marks(s@),
{
    let mut text = String::new();
    proof {
        reveal(Seq::filter);
        assert(without_diff_marks(s@.take(0)) =~= Seq::<char>::empty());
    }
    for c in it: s.chars()
        invariant
            it.seq() == s@,
            text@ == without_diff_marks(s@.take(it.index() as int)),
    {
        proof {
            reveal(Seq::filter);
            let n = it.index() as int;
            assert(s@.take(n + 1).drop_last() =~= s@.take(n));
        }
        if c != '[' && c != '+' && c != ']' {
            text.push(c);
        }
    }
    proof {
        assert(s@.take(s@.len() as int) =~= s@);
    }
    text
}

/// The `parts` in order, with `separator` between each two neighbours.
pub open spec fn joined(parts: Seq<Seq<char>>, separator: Seq<char>) -> Seq<char>
    decreases parts.len(),
{
    if parts.len() == 0 {
        Seq::empty()
    } else if parts.len() == 1 {
        parts[0]
    } else {
        joined(parts.drop_last(), separator) + separator + parts.last()
    }
}

/// Each of `entries` followed by `suffix`.
pub open spec fn suffixed(entries: Seq<Seq<char>>, suffix: Seq<char>) -> Seq<Seq<char>> {
    entries.map_values(|entry: Seq<char>| entry + suffix)
}

/// The `parts` in order, with `separator` between each two neighbours.
pub fn join(parts: &Vec<String>, separator: &str) -> (text: String)
    ensures
        text@ == joined(parts.deep_view(), separator@),
{
    let mut text = String::new();
    let mut i: usize = 0;
    while i < parts.len()
        invariant
            i <= parts.len(),
            text@ == joined(parts.deep_view().take(i as int), separator@),
        decreases parts.len() - i,
    {
        proof {
            let all = parts.deep_view();
            assert(all.take(i + 1).drop_last() =~= all.take(i as int));
            assert(all[i as int] == parts@[i as int]@);
        }
        if i > 0 {
            text.append(separator);
        }
        text.append(parts[i].as_str());
        i += 1;
    }
    proof {
        let all = parts.deep_view();
        assert(all.take(all.len() as int) =~= all);
    }
    text
}

/// Each of `entries` followed by `suffix`, with `separator` between each two
/// neighbours.
pub fn join_suffixed(entries: &Vec<String>, suffix: &str, separator: &str) -> (text: String)
    ensures
        text@ == joined(suffixed(entries.deep_view(), suffix@), separator@),
{
    let mut text = String::new();
    let mut i: usize = 0;
    while i < entries.len()
        invariant
            i <= entries.len(),
            text@ == joined(suffixed(entries.deep_view(), suffix@).take(i as int), separator@),
        decreases entries.len() - i,
    {
        proof {
            let all = suffixed(entries.deep_view(), suffix@);
            assert(all.take(i + 1).drop_last() =~= all.take(i as int));
            assert(all[i as int] == entries@[i as int]@ + suffix@);
            assert(text@ + separator@ + (entries@[i as int]@ + suffix@) =~= text@ + separator@
                + entries@[i as int]@ + suffix@);
            assert(Seq::<char>::empty() + entries@[i as int]@ + suffix@ =~= entries@[i as int]@
                + suffix@);
        }
        if i > 0 {
            text.append(separator);
        }
        text.append(entries[i].as_str());
        text.append(suffix);
        i += 1;
    }
    proof {
        let all = suffixed(entries.deep_view(), suffix@);
        assert(all.take(all.len() as int) =~= all);
    }
    text
}

/// The texts among `texts` that are not empty, in order.
pub open spec fn non_empty(texts: Seq<Seq<char>>) -> Seq<Seq<char>> {
    texts.filter(|text: Seq<char>| text.len() > 0)
}

/// `texts` with `text` added, unless `text` is empty.
pub open spec fn with_text(texts: Seq<Seq<char>>, text: Seq<char>) -> Seq<Seq<char>> {
    if text.len() > 0 {
        texts.push(text)
    } else {
        texts
    }
}

/// Among the texts that are not empty, a text that is added comes last,
/// unless it is empty itself.
pub proof fn lemma_non_empty_push(texts: Seq<Seq<char>>, text: Seq<char>)
    ensures
        non_empty(texts.push(text)) == with_text(non_empty(texts), text),
{
    reveal(Seq::filter);
    assert(texts.push(text).drop_last() =~= texts);
}

} // verus!
