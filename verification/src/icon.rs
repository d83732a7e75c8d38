//! Weather icon codes: the stem of an icon's file name, and the code that the
//! day and the night variant of an icon share.

use crate::text::{chars_of, string_of};
use vstd::prelude::*;

verus! {

/// The index of the last `c` in `s`; `-1` where `s` does not hold `c`.
pub open spec fn last_index_of(s: Seq<char>, c: char) -> int
    decreases s.len(),
{
    if s.len() == 0 {
        -1
    } else if s.last() == c {
        s.len() - 1
    } else {
        last_index_of(s.drop_last(), c)
    }
}

/// The last component of `path`: what follows its last `/`, or all of it.
pub open spec fn file_name(path: Seq<char>) -> Seq<char> {
    path.skip(last_index_of(path, '/') + 1)
}

/// `name` without its extension: what stands before its last `.`, unless the
/// name has no `.` or only begins with one.
pub open spec fn without_extension(name: Seq<char>) -> Seq<char> {
    let dot = last_index_of(name, '.');
    if dot > 0 {
        name.take(dot)
    } else {
        name
    }
}

/// The stem of the file that `path` names: its last component without the
/// extension.
pub open spec fn file_stem(path: Seq<char>) -> Seq<char> {
    without_extension(file_name(path))
}

/// Whether `code` is a bare code: it holds neither `/` nor `.`.
pub open spec fn is_bare(code: Seq<char>) -> bool {
    forall|i: int| 0 <= i < code.len() ==> #[trigger] code[i] != '/' && code[i] != '.'
}

/// What `last_index_of` finds is the last place of `c`, within `s`.
pub proof fn lemma_last_index_of(s: Seq<char>, c: char)
    ensures
        -1 <= last_index_of(s, c) < s.len(),
        last_index_of(s, c) >= 0 ==> s[last_index_of(s, c)] == c,
        forall|i: int| last_index_of(s, c) < i < s.len() ==> s[i] != c,
    decreases s.len(),
{
    if s.len() > 0 && s.last() != c {
        let front = s.drop_last();
        lemma_last_index_of(front, c);
        assert forall|i: int| last_index_of(s, c) < i < s.len() implies s[i] != c by {
            if i < front.len() {
                assert(front[i] != c);
            }
        }
    }
}

/// The index `at` holds the last `c` of `s` where `c` stands there and
/// nowhere after.
proof fn lemma_last_index_is(s: Seq<char>, c: char, at: int)
    requires
        -1 <= at < s.len(),
        at >= 0 ==> s[at] == c,
        forall|i: int| at < i < s.len() ==> s[i] != c,
    ensures
        last_index_of(s, c) == at,
    decreases s.len(),
{
    if s.len() > 0 && s.last() != c {
        let front = s.drop_last();
        assert forall|i: int| at < i < front.len() implies front[i] != c by {
            assert(s[i] != c);
        }
        lemma_last_index_is(front, c, at);
    }
}

/// The stem of a bare code is the code itself.
pub proof fn lemma_file_stem_of_bare(code: Seq<char>)
    requires
        is_bare(code),
    ensures
        file_stem(code) == code,
{
    lemma_last_index_is(code, '/', -1);
    lemma_last_index_is(code, '.', -1);
    assert(code.skip(0) =~= code);
}

/// A stem names no directory: it holds no `/`, whatever the path.
pub proof fn lemma_file_stem_holds_no_separator(path: Seq<char>)
    ensures
        forall|i: int| 0 <= i < file_stem(path).len() ==> file_stem(path)[i] != '/',
{
    let name = file_name(path);
    lemma_last_index_of(path, '/');
    lemma_last_index_of(name, '.');
    assert forall|i: int| 0 <= i < file_stem(path).len() implies file_stem(path)[i] != '/' by {
        assert(file_stem(path)[i] == name[i]);
        assert(name[i] == path[last_index_of(path, '/') + 1 + i]);
    }
}

/// Taking the stem strips both the directories and the extension: of
/// `dir/code.ext` it leaves `code`, whatever `dir` is, where `code` is bare
/// and not empty and `ext` is bare.
pub proof fn lemma_file_stem_strips_path_and_extension(
    dir: Seq<char>,
    code: Seq<char>,
    ext: Seq<char>,
)
    requires
        is_bare(code),
        is_bare(ext),
        code.len() > 0,
    ensures
        file_stem(dir + seq!['/'] + code + seq!['.'] + ext) == code,
{
    let path = dir + seq!['/'] + code + seq!['.'] + ext;
    let name = code + seq!['.'] + ext;
    assert forall|i: int| dir.len() < i < path.len() implies path[i] != '/' by {
        if i < dir.len() + 1 + code.len() {
            assert(path[i] == code[i - dir.len() - 1]);
        } else if i > dir.len() + 1 + code.len() {
            assert(path[i] == ext[i - dir.len() - 2 - code.len()]);
        }
    }
    lemma_last_index_is(path, '/', dir.len() as int);
    assert(path.skip(dir.len() as int + 1) =~= name);
    assert forall|i: int| code.len() < i < name.len() implies name[i] != '.' by {
        assert(name[i] == ext[i - code.len() - 1]);
    }
    lemma_last_index_is(name, '.', code.len() as int);
    assert(name.take(code.len() as int) =~= code);
}

/// The stem of the file that `path` names: what follows the last `/`,
/// without the extension.
pub fn get_stem(path: &str) -> (stem: String)
    ensures
        stem@ == file_stem(path@),
{
    let chars = chars_of(path);
    let n: usize = chars.len();
    let mut start: usize = 0;
    let mut dot: usize = n;
    let mut i: usize = 0;
    while i < n
        invariant
            i <= n,
            n == chars.len(),
            start <= i,
            start == last_index_of(chars@.take(i as int), '/') + 1,
            dot == n || start <= dot < i,
            dot == n ==> last_index_of(chars@.subrange(start as int, i as int), '.') == -1,
            dot < n ==> last_index_of(chars@.subrange(start as int, i as int), '.') == dot
                - start,
        decreases n - i,
    {
        let c = chars[i];
        proof {
            assert(chars@.take(i + 1).drop_last() =~= chars@.take(i as int));
            assert(chars@.subrange(start as int, i + 1).drop_last() =~= chars@.subrange(
                start as int,
                i as int,
            ));
        }
        if c == '/' {
            start = i + 1;
            dot = n;
        } else if c == '.' {
            dot = i;
        }
        i += 1;
    }
    proof {
        assert(chars@.take(n as int) =~= chars@);
        assert(chars@.subrange(start as int, n as int) =~= chars@.skip(start as int));
    }
    if dot < n && dot > start {
        proof {
            assert(chars@.skip(start as int).take(dot - start) =~= chars@.subrange(
                start as int,
                dot as int,
            ));
        }
        string_of(&chars, start, dot)
    } else {
        string_of(&chars, start, n)
    }
}

/// `code` without the night mark `_n`, wherever it stands: the code that the
/// day and the night variant of an icon share.
pub open spec fn without_night_mark(code: Seq<char>) -> Seq<char>
    decreases code.len(),
{
    if code.len() >= 2 && code[0] == '_' && code[1] == 'n' {
        without_night_mark(code.skip(2))
    } else if code.len() == 0 {
        code
    } else {
        seq![code[0]] + without_night_mark(code.skip(1))
    }
}

/// An icon code and the same code with the night mark appended share one
/// code.
pub proof fn lemma_night_variant_shares_code(code: Seq<char>)
    ensures
        without_night_mark(code + seq!['_', 'n']) == without_night_mark(code),
    decreases code.len(),
{
    let night = code + seq!['_', 'n'];
    if code.len() >= 2 && code[0] == '_' && code[1] == 'n' {
        lemma_night_variant_shares_code(code.skip(2));
        assert(night[0] == code[0] && night[1] == code[1]);
        assert(night.skip(2) =~= code.skip(2) + seq!['_', 'n']);
    } else if code.len() == 0 {
        assert(night[0] == '_' && night[1] == 'n');
        assert(night.skip(2) =~= Seq::<char>::empty());
        assert(without_night_mark(night.skip(2)) =~= Seq::<char>::empty());
        assert(without_night_mark(code) =~= Seq::<char>::empty());
    } else {
        lemma_night_variant_shares_code(code.skip(1));
        assert(night.skip(1) =~= code.skip(1) + seq!['_', 'n']);
        assert(night[0] == code[0]);
        if code.len() >= 2 {
            assert(night[1] == code[1]);
        } else {
            assert(night[1] == '_');
        }
        assert(without_night_mark(night) == seq![night[0]] + without_night_mark(night.skip(1)));
    }
}

/// The code that the day and the night variant of an icon share: `code`
/// without the night mark `_n`.
pub fn strip_night_mark(code: &str) -> (day: String)
    ensures
        day@ == without_night_mark(code@),
{
    let chars = chars_of(code);
    let n: usize = chars.len();
    let mut day = String::new();
    let mut i: usize = 0;
    proof {
        assert(chars@.skip(0) =~= chars@);
        assert(day@ + without_night_mark(chars@) =~= without_night_mark(chars@));
    }
    while i < n
        invariant
            i <= n,
            n == chars.len(),
            chars@ == code@,
            day@ + without_night_mark(chars@.skip(i as int)) == without_night_mark(chars@),
        decreases n - i,
    {
        let ghost rest = chars@.skip(i as int);
        if chars[i] == '_' && i + 1 < n && chars[i + 1] == 'n' {
            proof {
                assert(rest.skip(2) =~= chars@.skip(i + 2));
            }
            i += 2;
        } else {
            proof {
                assert(rest.skip(1) =~= chars@.skip(i + 1));
                assert(day@.push(chars@[i as int]) + without_night_mark(rest.skip(1)) =~= day@
                    + (seq![rest[0]] + without_night_mark(rest.skip(1))));
            }
            day.push(chars[i]);
            i += 1;
        }
    }
    proof {
        assert(day@ + Seq::<char>::empty() =~= day@);
    }
    day
}

} // verus!
