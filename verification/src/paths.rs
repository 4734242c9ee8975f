//! Paths as text.
//!
//! A path is a string whose components are separated by `/`. Components are
//! compared as written: nothing is resolved against the file system, and no
//! symbolic link or `..` is followed.

use vstd::prelude::*;
use crate::text::{
    chars_of, has_prefix, push_all, rows, slice_of, split, split_by, starts_with, string_of, texts,
};

verus! {

/// The component separator.
pub const SEPARATOR: char = '/';

/// The separators of a path, as a sequence.
pub open spec fn separators() -> Seq<char> {
    seq![SEPARATOR]
}

/// The text of the component that names the directory itself.
pub open spec fn current_dir_name() -> Seq<char> {
    seq!['.']
}

/// The text of the component that names the parent directory.
pub open spec fn parent_dir_name() -> Seq<char> {
    seq!['.', '.']
}

/// The pieces of `path` between separators, empty ones included.
pub open spec fn segments(path: Seq<char>) -> Seq<Seq<char>> {
    split_by(path, separators())
}

/// A normal component names a file or directory: it is not empty, and it is
/// neither `.` nor `..`.
pub open spec fn is_normal_component(c: Seq<char>) -> bool {
    c.len() > 0 && c != current_dir_name() && c != parent_dir_name()
}

/// Whether `name` is one of the normal components of `path`.
pub open spec fn has_component(path: Seq<char>, name: Seq<char>) -> bool {
    is_normal_component(name) && segments(path).contains(name)
}

/// The last piece of `segs` that is neither empty nor `.`; `None` if there
/// is none or if it is `..`.
pub open spec fn final_name(segs: Seq<Seq<char>>) -> Option<Seq<char>>
    decreases segs.len(),
{
    if segs.len() == 0 {
        None
    } else if segs.last().len() == 0 || segs.last() == current_dir_name() {
        final_name(segs.drop_last())
    } else if segs.last() == parent_dir_name() {
        None
    } else {
        Some(segs.last())
    }
}

/// The name of the file or directory that `path` ends in.
pub open spec fn file_name_of(path: Seq<char>) -> Option<Seq<char>> {
    final_name(segments(path))
}

/// The greatest index at which `c` stands in `s`.
pub open spec fn last_index_of(s: Seq<char>, c: char) -> Option<int>
    decreases s.len(),
{
    if s.len() == 0 {
        None
    } else if s.last() == c {
        Some(s.len() - 1)
    } else {
        last_index_of(s.drop_last(), c)
    }
}

/// The extension of a file name: what follows its last dot, unless the name
/// has no dot or its only dot is the first character.
pub open spec fn extension_of_name(name: Seq<char>) -> Option<Seq<char>> {
    match last_index_of(name, '.') {
        None => None,
        Some(i) => if i == 0 {
            None
        } else {
            Some(name.skip(i + 1))
        },
    }
}

/// The extension of the file that `path` ends in.
pub open spec fn extension_of(path: Seq<char>) -> Option<Seq<char>> {
    match file_name_of(path) {
        None => None,
        Some(name) => extension_of_name(name),
    }
}

/// `base` extended by `child`: an absolute `child` replaces `base`; otherwise
/// the two are joined by exactly one separator.
pub open spec fn joined(base: Seq<char>, child: Seq<char>) -> Seq<char> {
    if child.len() > 0 && child[0] == SEPARATOR {
        child
    } else if base.len() == 0 || base.last() == SEPARATOR {
        base + child
    } else {
        base + separators() + child
    }
}

/// `s` without the separators at its end.
pub open spec fn without_trailing_separators(s: Seq<char>) -> Seq<char>
    decreases s.len(),
{
    if s.len() > 0 && s.last() == SEPARATOR {
        without_trailing_separators(s.drop_last())
    } else {
        s
    }
}

/// The directory that holds the last component of `path`.
///
/// `None` for the empty path and for a path made of separators only. A path
/// of one component has the empty parent when it is relative and the root
/// when it is absolute.
pub open spec fn parent_of(path: Seq<char>) -> Option<Seq<char>> {
    let trimmed = without_trailing_separators(path);
    if trimmed.len() == 0 {
        None
    } else {
        match last_index_of(trimmed, SEPARATOR) {
            None => Some(Seq::<char>::empty()),
            Some(i) => {
                let dir = without_trailing_separators(trimmed.take(i));
                if dir.len() == 0 {
                    Some(separators())
                } else {
                    Some(dir)
                }
            },
        }
    }
}

/// What remains of `path` below the directory `base`: `path` must begin with
/// `base`, and `base` must end where a component of `path` ends.
pub open spec fn relative_to(path: Seq<char>, base: Seq<char>) -> Option<Seq<char>> {
    if !starts_with(path, base) {
        None
    } else if path.len() == base.len() {
        Some(Seq::<char>::empty())
    } else if base.len() > 0 && base.last() == SEPARATOR {
        Some(path.skip(base.len() as int))
    } else if path[base.len() as int] == SEPARATOR {
        Some(path.skip(base.len() as int + 1))
    } else {
        None
    }
}

/// Whether `c` is a normal component.
pub fn is_normal(c: &Vec<char>) -> (b: bool)
    ensures
        b == is_normal_component(c@),
{
    if c.len() == 0 {
        false
    } else if c.len() == 1 && c[0] == '.' {
        assert(c@ =~= current_dir_name());
        false
    } else if c.len() == 2 && c[0] == '.' && c[1] == '.' {
        assert(c@ =~= parent_dir_name());
        false
    } else {
        assert(c@ != current_dir_name()) by {
            if c@ == current_dir_name() {
                assert(c@.len() == 1 && c@[0] == '.');
            }
        }
        assert(c@ != parent_dir_name()) by {
            if c@ == parent_dir_name() {
                assert(c@.len() == 2 && c@[0] == '.' && c@[1] == '.');
            }
        }
        true
    }
}

/// The pieces of `path` between separators.
pub fn path_segments(path: &Vec<char>) -> (segs: Vec<Vec<char>>)
    ensures
        rows(segs@) == segments(path@),
{
    let mut seps: Vec<char> = Vec::new();
    seps.push(SEPARATOR);
    assert(seps@ =~= separators());
    split(path, &seps)
}

/// The name of the file or directory that `path` ends in.
pub fn file_name_chars(path: &Vec<char>) -> (name: Option<Vec<char>>)
    ensures
        match name {
            Some(n) => file_name_of(path@) == Some(n@),
            None => file_name_of(path@).is_none(),
        },
{
    let segs = path_segments(path);
    let mut i: usize = segs.len();
    assert(rows(segs@).take(i as int) =~= rows(segs@));
    while i > 0
        invariant
            i <= segs.len(),
            rows(segs@) == segments(path@),
            final_name(rows(segs@)) == final_name(rows(segs@).take(i as int)),
        decreases i,
    {
        let ghost upto = rows(segs@).take(i as int);
        let seg = &segs[i - 1];
        assert(upto.last() == seg@);
        assert(upto.drop_last() =~= rows(segs@).take(i - 1));
        if seg.len() == 0 {
            i -= 1;
        } else if seg.len() == 1 && seg[0] == '.' {
            assert(seg@ =~= current_dir_name());
            i -= 1;
        } else if seg.len() == 2 && seg[0] == '.' && seg[1] == '.' {
            assert(seg@ =~= parent_dir_name());
            assert(seg@ != current_dir_name()) by {
                if seg@ == current_dir_name() {
                    assert(seg@.len() == 1);
                }
            }
            return None;
        } else {
            proof {
                if seg@ == current_dir_name() {
                    assert(seg@.len() == 1 && seg@[0] == '.');
                }
                if seg@ == parent_dir_name() {
                    assert(seg@.len() == 2 && seg@[0] == '.' && seg@[1] == '.');
                }
            }
            return Some(slice_of(seg, 0, seg.len()));
        }
    }
    None
}

/// The greatest index at which `c` stands in `s`.
pub fn rfind_char(s: &Vec<char>, c: char) -> (r: Option<usize>)
    ensures
        match r {
            Some(i) => last_index_of(s@, c) == Some(i as int) && i < s.len(),
            None => last_index_of(s@, c).is_none(),
        },
{
    let mut i: usize = s.len();
    assert(s@.take(i as int) =~= s@);
    while i > 0
        invariant
            i <= s.len(),
            last_index_of(s@, c) == last_index_of(s@.take(i as int), c),
        decreases i,
    {
        assert(s@.take(i as int).drop_last() =~= s@.take(i - 1));
        if s[i - 1] == c {
            return Some(i - 1);
        }
        i -= 1;
    }
    None
}

/// The extension of a file name.
pub fn name_extension(name: &Vec<char>) -> (ext: Option<Vec<char>>)
    ensures
        match ext {
            Some(e) => extension_of_name(name@) == Some(e@),
            None => extension_of_name(name@).is_none(),
        },
{
    match rfind_char(name, '.') {
        None => None,
        Some(i) => {
            if i == 0 {
                None
            } else {
                Some(slice_of(name, i + 1, name.len()))
            }
        },
    }
}

/// The extension of the file that `path` ends in.
pub fn extension_chars(path: &Vec<char>) -> (ext: Option<Vec<char>>)
    ensures
        match ext {
            Some(e) => extension_of(path@) == Some(e@),
            None => extension_of(path@).is_none(),
        },
{
    match file_name_chars(path) {
        None => None,
        Some(name) => name_extension(&name),
    }
}

/// The name of the file or directory that `path` ends in.
pub fn file_name(path: &str) -> (name: Option<String>)
    ensures
        match name {
            Some(n) => file_name_of(path@) == Some(n@),
            None => file_name_of(path@).is_none(),
        },
{
    let p = chars_of(path);
    match file_name_chars(&p) {
        None => None,
        Some(n) => Some(string_of(&n)),
    }
}

/// The extension of the file that `path` ends in.
pub fn extension(path: &str) -> (ext: Option<String>)
    ensures
        match ext {
            Some(e) => extension_of(path@) == Some(e@),
            None => extension_of(path@).is_none(),
        },
{
    let p = chars_of(path);
    match extension_chars(&p) {
        None => None,
        Some(e) => Some(string_of(&e)),
    }
}

/// `base` extended by `child`.
pub fn join(base: &str, child: &str) -> (path: String)
    ensures
        path@ == joined(base@, child@),
{
    let b = chars_of(base);
    let c = chars_of(child);
    if c.len() > 0 && c[0] == SEPARATOR {
        return string_of(&c);
    }
    let mut out: Vec<char> = Vec::new();
    push_all(&mut out, &b);
    if b.len() > 0 && b[b.len() - 1] != SEPARATOR {
        out.push(SEPARATOR);
    }
    push_all(&mut out, &c);
    proof {
        if base@.len() == 0 || base@.last() == SEPARATOR {
            assert(out@ =~= base@ + child@);
        } else {
            assert(out@ =~= base@ + separators() + child@);
        }
    }
    string_of(&out)
}

/// The length of `s` without the separators at its end.
fn trimmed_len(s: &Vec<char>, upto: usize) -> (n: usize)
    requires
        upto <= s.len(),
    ensures
        n <= upto,
        s@.take(n as int) == without_trailing_separators(s@.take(upto as int)),
{
    let mut n: usize = upto;
    while n > 0 && s[n - 1] == SEPARATOR
        invariant
            n <= upto <= s.len(),
            without_trailing_separators(s@.take(n as int)) == without_trailing_separators(
                s@.take(upto as int),
            ),
        decreases n,
    {
        assert(s@.take(n as int).drop_last() =~= s@.take(n - 1));
        n -= 1;
    }
    n
}

/// The directory that holds the last component of `path`.
pub fn parent(path: &str) -> (dir: Option<String>)
    ensures
        match dir {
            Some(d) => parent_of(path@) == Some(d@),
            None => parent_of(path@).is_none(),
        },
{
    let p = chars_of(path);
    assert(p@.take(p.len() as int) =~= p@);
    let n = trimmed_len(&p, p.len());
    if n == 0 {
        return None;
    }
    let trimmed = slice_of(&p, 0, n);
    assert(trimmed@ =~= p@.take(n as int));
    match rfind_char(&trimmed, SEPARATOR) {
        None => Some(String::new()),
        Some(i) => {
            let m = trimmed_len(&trimmed, i);
            if m == 0 {
                let mut root: Vec<char> = Vec::new();
                root.push(SEPARATOR);
                assert(root@ =~= separators());
                Some(string_of(&root))
            } else {
                let dir = slice_of(&trimmed, 0, m);
                assert(dir@ =~= trimmed@.take(m as int));
                Some(string_of(&dir))
            }
        },
    }
}

/// What remains of `path` below the directory `base`.
pub fn strip_base(path: &str, base: &str) -> (rest: Option<String>)
    ensures
        match rest {
            Some(r) => relative_to(path@, base@) == Some(r@),
            None => relative_to(path@, base@).is_none(),
        },
{
    let p = chars_of(path);
    let b = chars_of(base);
    if !has_prefix(&p, &b) {
        return None;
    }
    if p.len() == b.len() {
        return Some(String::new());
    }
    if b.len() > 0 && b[b.len() - 1] == SEPARATOR {
        let rest = slice_of(&p, b.len(), p.len());
        assert(rest@ =~= p@.skip(b.len() as int));
        return Some(string_of(&rest));
    }
    if p[b.len()] == SEPARATOR {
        let rest = slice_of(&p, b.len() + 1, p.len());
        assert(rest@ =~= p@.skip(b.len() + 1));
        return Some(string_of(&rest));
    }
    None
}

/// Trimming separators never lengthens a text.
pub proof fn lemma_trimmed_is_shorter(s: Seq<char>)
    ensures
        without_trailing_separators(s).len() <= s.len(),
    decreases s.len(),
{
    if s.len() > 0 && s.last() == SEPARATOR {
        lemma_trimmed_is_shorter(s.drop_last());
    }
}

/// The last index of a character lies inside the text.
pub proof fn lemma_last_index_in_range(s: Seq<char>, c: char)
    ensures
        match last_index_of(s, c) {
            Some(i) => 0 <= i < s.len() && s[i] == c,
            None => true,
        },
    decreases s.len(),
{
    if s.len() > 0 && s.last() != c {
        lemma_last_index_in_range(s.drop_last(), c);
    }
}

/// A text without trailing separators does not end with a separator.
pub proof fn lemma_trimmed_end(s: Seq<char>)
    ensures
        without_trailing_separators(s).len() > 0 ==> without_trailing_separators(s).last()
            != SEPARATOR,
    decreases s.len(),
{
    if s.len() > 0 && s.last() == SEPARATOR {
        lemma_trimmed_end(s.drop_last());
    }
}

/// The parent of a path is shorter than the path.
pub proof fn lemma_parent_is_shorter(path: Seq<char>)
    ensures
        match parent_of(path) {
            Some(dir) => dir.len() < path.len(),
            None => true,
        },
{
    let trimmed = without_trailing_separators(path);
    lemma_trimmed_is_shorter(path);
    lemma_trimmed_end(path);
    if trimmed.len() > 0 {
        lemma_last_index_in_range(trimmed, SEPARATOR);
        match last_index_of(trimmed, SEPARATOR) {
            None => {},
            Some(i) => {
                lemma_trimmed_is_shorter(trimmed.take(i));
                assert(i < trimmed.len() - 1) by {
                    if i == trimmed.len() - 1 {
                        assert(trimmed.last() == SEPARATOR);
                    }
                }
            },
        }
    }
}

/// A path and the directories above it, from the path itself upwards.
pub open spec fn ancestors_of(path: Seq<char>) -> Seq<Seq<char>>
    decreases path.len(),
{
    match parent_of(path) {
        Some(dir) => if dir.len() < path.len() {
            seq![path] + ancestors_of(dir)
        } else {
            seq![path]
        },
        None => seq![path],
    }
}

/// A path and the directories above it, from the path itself upwards.
pub fn ancestors(start: &str) -> (dirs: Vec<String>)
    ensures
        texts(dirs@) == ancestors_of(start@),
        dirs@.len() >= 1,
{
    let mut dirs: Vec<String> = Vec::new();
    let mut current: String = start.to_owned();
    assert(texts(dirs@) =~= Seq::<Seq<char>>::empty());
    loop
        invariant_except_break
            texts(dirs@) + ancestors_of(current@) == ancestors_of(start@),
        ensures
            texts(dirs@) == ancestors_of(start@),
            dirs@.len() >= 1,
        decreases current@.len(),
    {
        let ghost before = texts(dirs@);
        let ghost here = current@;
        proof {
            lemma_parent_is_shorter(here);
        }
        let up = parent(current.as_str());
        dirs.push(current);
        assert(texts(dirs@) =~= before.push(here));
        match up {
            Some(dir) => {
                assert(before + (seq![here] + ancestors_of(dir@)) =~= before.push(here)
                    + ancestors_of(dir@));
                current = dir;
            },
            None => {
                assert(before + seq![here] =~= before.push(here));
                break ;
            },
        }
    }
    dirs
}

} // verus!
