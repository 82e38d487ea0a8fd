//! File selection by extension: a path is taken where the extension of its
//! file name is one of an allowed list.

use crate::chars::{chars_of, push_range};
use vstd::prelude::*;

verus! {

/// The place of the last `c` in `s`, or -1 where `s` holds none.
pub open spec fn last_index_of(s: Seq<char>, c: char) -> int
    decreases s.len(),
{
    if s.len() == 0 {
        -1
    } else if s.last() == c {
        s.len() - 1
    } else {
        last_index_of(s.drop_last(), c)
    }
}

/// The last component of `path`: what follows its last `/`.
pub open spec fn file_name(path: Seq<char>) -> Seq<char> {
    path.skip(last_index_of(path, '/') + 1)
}

/// The extension of the file that `path` names: what follows the last dot of
/// the file name. A name without a dot has none, and neither has a name whose
/// only dot is its first character.
pub open spec fn extension(path: Seq<char>) -> Option<Seq<char>> {
    let name = file_name(path);
    let dot = last_index_of(name, '.');
    if dot <= 0 {
        None
    } else {
        Some(name.skip(dot + 1))
    }
}

/// The selection rule: the path has an extension, and `allowed` holds it,
/// letter for letter.
pub open spec fn extension_allowed(path: Seq<char>, allowed: Seq<Seq<char>>) -> bool {
    extension(path) matches Some(found) && allowed.contains(found)
}

/// Where the last `c` stands.
pub proof fn lemma_last_index_of(s: Seq<char>, c: char)
    ensures
        -1 <= last_index_of(s, c) < s.len(),
        last_index_of(s, c) >= 0 ==> s[last_index_of(s, c)] == c,
        forall|k: int| last_index_of(s, c) < k < s.len() ==> s[k] != c,
    decreases s.len(),
{
    if s.len() > 0 && s.last() != c {
        let front = s.drop_last();
        lemma_last_index_of(front, c);
        assert forall|k: int| last_index_of(s, c) < k < s.len() implies s[k] != c by {
            if k < front.len() {
                assert(s[k] == front[k]);
            }
        }
        if last_index_of(s, c) >= 0 {
            assert(s[last_index_of(s, c)] == front[last_index_of(front, c)]);
        }
    }
}

/// A `c` with none behind it is the last one.
pub proof fn lemma_last_index_found(s: Seq<char>, c: char, at: int)
    requires
        -1 <= at < s.len(),
        at >= 0 ==> s[at] == c,
        forall|k: int| at < k < s.len() ==> s[k] != c,
    ensures
        last_index_of(s, c) == at,
    decreases s.len(),
{
    if s.len() > 0 && s.last() != c {
        let front = s.drop_last();
        assert forall|k: int| at < k < front.len() implies front[k] != c by {
            assert(front[k] == s[k]);
        }
        lemma_last_index_found(front, c, at);
    }
}

/// The extension of the file that `path` names, if it has one.
pub fn extension_of(path: &str) -> (r: Option<String>)
    ensures
        r is Some <==> extension(path@) is Some,
        r matches Some(found) ==> Some(found@) == extension(path@),
{
    let chars = chars_of(path);
    let n = chars.len();
    // The file name starts behind the last separator.
    let mut name_start: usize = n;
    while name_start > 0 && chars[name_start - 1] != '/'
        invariant
            name_start <= n == chars@.len(),
            forall|k: int| name_start <= k < n ==> chars@[k] != '/',
        decreases name_start,
    {
        name_start -= 1;
    }
    proof {
        lemma_last_index_found(chars@, '/', name_start as int - 1);
    }
    let ghost name = chars@.skip(name_start as int);
    assert(name == file_name(path@));
    // The last dot of the file name.
    let mut dot: usize = n;
    while dot > name_start && chars[dot - 1] != '.'
        invariant
            name_start <= dot <= n == chars@.len(),
            forall|k: int| dot <= k < n ==> chars@[k] != '.',
        decreases dot,
    {
        dot -= 1;
    }
    proof {
        assert forall|k: int| dot as int - 1 - name_start < k < name.len() implies name[k] != '.' by {
            assert(name[k] == chars@[name_start + k]);
        }
        if dot > name_start {
            assert(name[dot as int - 1 - name_start] == chars@[dot as int - 1]);
        }
        lemma_last_index_found(name, '.', dot as int - 1 - name_start);
    }
    if dot - name_start <= 1 {
        None
    } else {
        let mut found = String::new();
        push_range(&mut found, &chars, dot, n);
        proof {
            assert(chars@.subrange(dot as int, n as int) =~= name.skip(dot as int - name_start));
            assert(found@ =~= chars@.subrange(dot as int, n as int));
        }
        Some(found)
    }
}

/// Whether `list` holds `text`, letter for letter.
pub fn contains_text(list: &[String], text: &String) -> (r: bool)
    ensures
        r == list.deep_view().contains(text@),
{
    let mut i: usize = 0;
    while i < list.len()
        invariant
            i <= list@.len(),
            forall|k: int| 0 <= k < i ==> list.deep_view()[k] != text@,
        decreases list@.len() - i,
    {
        assert(list.deep_view()[i as int] == list@[i as int]@);
        if list[i] == *text {
            return true;
        }
        i += 1;
    }
    false
}

/// Decides by extension whether the file at `path` goes into the output: its
/// extension must be in `allowed`. A file without an extension never goes.
pub fn has_allowed_extension(path: &str, allowed: &[String]) -> (r: bool)
    ensures
        r == extension_allowed(path@, allowed.deep_view()),
{
    match extension_of(path) {
        Some(found) => contains_text(allowed, &found),
        None => false,
    }
}

} // verus!
