//! Paths as text: joining, home expansion and file extensions, following the
//! Unix rules of the standard library's `Path`.

use vstd::prelude::*;
use vstd::string::*;
use crate::text::{cat2, cat3, starts_with_text, text_starts_with};

verus! {

/// `base` joined with `rest`: an absolute `rest` replaces `base`; otherwise
/// one separator goes between them unless `base` is empty or already ends
/// with one.
pub open spec fn path_join(base: Seq<char>, rest: Seq<char>) -> Seq<char> {
    if rest.len() > 0 && rest[0] == '/' {
        rest
    } else if base.len() == 0 || base.last() == '/' {
        base + rest
    } else {
        base + seq!['/'] + rest
    }
}

/// A leading `~/` stands for the home directory.
pub open spec fn tilde_expanded(path: Seq<char>, home: Seq<char>) -> Seq<char> {
    if text_starts_with(path, seq!['~', '/']) {
        path_join(home, path.subrange(2, path.len() as int))
    } else {
        path
    }
}

/// The position of the last `c` in `s`, or -1 where there is none.
pub open spec fn last_index_of(s: Seq<char>, c: char) -> int
    decreases s.len(),
{
    if s.len() == 0 {
        -1
    } else if s.last() == c {
        s.len() - 1
    } else {
        last_index_of(s.drop_last(), c)
    }
}

/// The extension of a file name: what follows its last dot, where that dot is
/// not the first character; none for `..`.
pub open spec fn file_extension(name: Seq<char>) -> Option<Seq<char>> {
    let i = last_index_of(name, '.');
    if name == seq!['.', '.'] || i <= 0 {
        None
    } else {
        Some(name.subrange(i + 1, name.len() as int))
    }
}

proof fn lemma_last_index_unique(s: Seq<char>, c: char, i: int)
    requires
        -1 <= i < s.len(),
        i >= 0 ==> s[i] == c,
        forall|j: int| i < j < s.len() ==> s[j] != c,
    ensures
        last_index_of(s, c) == i,
    decreases s.len(),
{
    if s.len() > 0 && i != s.len() - 1 {
        lemma_last_index_unique(s.drop_last(), c, i);
    }
}

/// Joining a text that begins with a fixed non-empty part: what follows
/// the part is appended to the join of the part alone.
pub proof fn lemma_join_extends(home: Seq<char>, part: Seq<char>, rest: Seq<char>)
    requires
        part.len() > 0,
    ensures
        path_join(home, part + rest) == path_join(home, part) + rest,
{
    assert((part + rest)[0] == part[0]);
    assert((home + (part + rest)) =~= (home + part) + rest);
    assert((home + seq!['/'] + (part + rest)) =~= (home + seq!['/'] + part) + rest);
}

/// Joining twice is joining once with a separator between, where the middle
/// part is relative and ends in no separator and the last is relative.
pub proof fn lemma_join_twice(home: Seq<char>, dir: Seq<char>, name: Seq<char>)
    requires
        dir.len() > 0,
        dir[0] != '/',
        dir.last() != '/',
        name.len() > 0,
        name[0] != '/',
    ensures
        path_join(path_join(home, dir), name) == path_join(home, dir + seq!['/'] + name),
{
    lemma_join_extends(home, dir, seq!['/'] + name);
    assert(dir + seq!['/'] + name =~= dir + (seq!['/'] + name));
    let joined = path_join(home, dir);
    assert(joined.len() > 0 && joined.last() == dir.last());
    assert(joined + seq!['/'] + name =~= joined + (seq!['/'] + name));
}

/// The home directory: the value of `HOME` where it is set, `.` otherwise.
pub fn home_or_default(home_var: Option<String>) -> (r: String)
    ensures
        r@ == match home_var {
            Some(h) => h@,
            None => seq!['.'],
        },
{
    proof {
        reveal_strlit(".");
    }
    match home_var {
        Some(h) => h,
        None => String::from_str("."),
    }
}

/// `base` joined with `rest`.
pub fn join_path(base: &str, rest: &str) -> (r: String)
    ensures
        r@ == path_join(base@, rest@),
{
    proof {
        reveal_strlit("/");
    }
    let lr = rest.unicode_len();
    if lr > 0 && rest.get_char(0) == '/' {
        return String::from_str(rest);
    }
    let lb = base.unicode_len();
    if lb == 0 || base.get_char(lb - 1) == '/' {
        cat2(base, rest)
    } else {
        cat3(base, "/", rest)
    }
}

/// `path` with a leading `~/` replaced by the home directory.
pub fn expand_tilde(path: &str, home: &str) -> (r: String)
    ensures
        r@ == tilde_expanded(path@, home@),
{
    proof {
        reveal_strlit("~/");
        assert("~/"@ =~= seq!['~', '/']);
    }
    if starts_with_text(path, "~/") {
        let l = path.unicode_len();
        let rest = path.substring_char(2, l);
        join_path(home, rest)
    } else {
        String::from_str(path)
    }
}

/// The extension of the file name `name`, where it has one.
pub fn extension_of(name: &str) -> (r: Option<String>)
    ensures
        match r {
            Some(e) => file_extension(name@) == Some(e@),
            None => file_extension(name@) is None,
        },
{
    proof {
        reveal_strlit("..");
    }
    let l = name.unicode_len();
    let mut i: usize = l;
    while i > 0 && name.get_char(i - 1) != '.'
        invariant
            l == name@.len(),
            i <= l,
            forall|j: int| i <= j < l ==> name@[j] != '.',
        decreases i,
    {
        i = i - 1;
    }
    proof {
        if i == 0 {
            lemma_last_index_unique(name@, '.', -1);
        } else {
            lemma_last_index_unique(name@, '.', i - 1);
        }
    }
    let is_parent = l == 2 && name.get_char(0) == '.' && name.get_char(1) == '.';
    proof {
        if name@ == seq!['.', '.'] {
            assert(is_parent);
        }
        if is_parent {
            assert(name@ =~= seq!['.', '.']);
        }
    }
    if is_parent || i <= 1 {
        None
    } else {
        Some(String::from_str(name.substring_char(i, l)))
    }
}

/// Whether the file name `name` has the extension `json`.
pub fn has_json_extension(name: &str) -> (r: bool)
    ensures
        r == (file_extension(name@) == Some("json"@)),
{
    match extension_of(name) {
        Some(e) => {
            let j = String::from_str("json");
            e == j
        },
        None => false,
    }
}

} // verus!
