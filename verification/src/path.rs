//! Joining and splitting `/`-separated paths, as the tool names its files.
use vstd::prelude::*;
use crate::text::{
    find_last_char, last_index_of, lemma_last_index_of, lemma_last_index_of_unique, push_char,
    push_str, substring, to_owned_string,
};

verus! {

/// `dir` joined with `name` the way `PathBuf::push` does on Unix: an absolute
/// `name` replaces `dir`, and a `/` is put between them unless `dir` is empty
/// or already ends in one.
pub open spec fn path_join(dir: Seq<char>, name: Seq<char>) -> Seq<char> {
    if name.len() > 0 && name[0] == '/' {
        name
    } else if dir.len() == 0 || dir.last() == '/' {
        dir + name
    } else {
        dir + seq!['/'] + name
    }
}

/// Joins `dir` and `name`.
pub fn join_path(dir: &str, name: &str) -> (r: String)
    ensures
        r@ == path_join(dir@, name@),
{
    let nl = name.unicode_len();
    if nl > 0 && name.get_char(0) == '/' {
        return to_owned_string(name);
    }
    let dl = dir.unicode_len();
    let mut r = to_owned_string(dir);
    if !(dl == 0 || dir.get_char(dl - 1) == '/') {
        push_char(&mut r, '/');
    }
    push_str(&mut r, name);
    r
}

/// The length of `p` once trailing separators and `.` components are
/// dropped, as `Path::components` reads a path: a root `/` and a leading `.`
/// stay.
pub open spec fn trimmed_len(p: Seq<char>) -> nat
    decreases p.len(),
{
    if p.len() == 0 {
        0
    } else if p.last() == '/' {
        if p.len() == 1 {
            1
        } else {
            trimmed_len(p.drop_last())
        }
    } else {
        let k = last_index_of(p, '/');
        proof {
            lemma_last_index_of(p, '/');
        }
        if k >= 0 && p.subrange(k + 1, p.len() as int) == seq!['.'] {
            trimmed_len(p.subrange(0, k + 1))
        } else {
            p.len()
        }
    }
}

/// `p` without its trailing separators and `.` components.
pub open spec fn trimmed(p: Seq<char>) -> Seq<char> {
    p.subrange(0, trimmed_len(p) as int)
}

/// Where the last component of a path starts.
pub open spec fn last_component_start(p: Seq<char>) -> int {
    last_index_of(trimmed(p), '/') + 1
}

/// The last component of a path (empty for the empty path and the root).
pub open spec fn last_component(p: Seq<char>) -> Seq<char> {
    trimmed(p).subrange(last_component_start(p), trimmed(p).len() as int)
}

/// The file name of a path, as `Path::file_name` gives it: its last
/// component, unless that is `.`, `..`, the root or nothing.
pub open spec fn path_file_name(p: Seq<char>) -> Option<Seq<char>> {
    let c = last_component(p);
    if c.len() == 0 || c == seq!['.'] || c == seq!['.', '.'] {
        None
    } else {
        Some(c)
    }
}

/// The stem of a path's file name (the part before its last `.`, unless the
/// `.` leads the name).
pub open spec fn path_file_stem(p: Seq<char>) -> Option<Seq<char>> {
    match path_file_name(p) {
        None => None,
        Some(n) => {
            let k = last_index_of(n, '.');
            if k <= 0 {
                Some(n)
            } else {
                Some(n.subrange(0, k))
            }
        },
    }
}

/// The extension of a path's file name (the part after its last `.`, unless
/// the `.` leads the name), if any.
pub open spec fn path_extension(p: Seq<char>) -> Option<Seq<char>> {
    match path_file_name(p) {
        None => None,
        Some(n) => {
            let k = last_index_of(n, '.');
            if k <= 0 {
                None
            } else {
                Some(n.subrange(k + 1, n.len() as int))
            }
        },
    }
}

/// The path cut right after the stem of its file name, followed by `.ext`
/// (nothing for an empty `ext`), as `Path::with_extension` makes it. A path
/// without a stem stays as it is.
pub open spec fn path_with_extension(p: Seq<char>, ext: Seq<char>) -> Seq<char> {
    match path_file_stem(p) {
        Some(stem) => {
            let cut = p.subrange(0, last_component_start(p) + stem.len());
            if ext.len() == 0 {
                cut
            } else {
                cut + seq!['.'] + ext
            }
        },
        None => p,
    }
}

/// The parent of a path, as `Path::parent` gives it: the path without its
/// last component, the separator before it and the separators and `.`
/// components before that (the root stays); nothing for the empty path and
/// the root.
pub open spec fn path_parent(p: Seq<char>) -> Option<Seq<char>> {
    let q = trimmed(p);
    let k = last_index_of(q, '/');
    if q.len() == 0 || q == seq!['/'] {
        None
    } else if k < 0 {
        Some(Seq::empty())
    } else {
        Some(p.subrange(0, trimmed_len(q.subrange(0, k + 1)) as int))
    }
}

/// Trimming never lengthens a path.
pub proof fn lemma_trimmed_len(p: Seq<char>)
    ensures
        trimmed_len(p) <= p.len(),
    decreases p.len(),
{
    if p.len() > 0 {
        if p.last() == '/' {
            if p.len() > 1 {
                lemma_trimmed_len(p.drop_last());
            }
        } else {
            lemma_last_index_of(p, '/');
            let k = last_index_of(p, '/');
            if k >= 0 && p.subrange(k + 1, p.len() as int) == seq!['.'] {
                lemma_trimmed_len(p.subrange(0, k + 1));
            }
        }
    }
}

/// The length of `p` without trailing separators and `.` components.
fn trimmed_length(p: &str) -> (n: usize)
    ensures
        n == trimmed_len(p@),
{
    let len = p.unicode_len();
    let mut j: usize = len;
    assert(p@.subrange(0, len as int) =~= p@);
    loop
        invariant
            len == p@.len(),
            j <= len,
            trimmed_len(p@.subrange(0, j as int)) == trimmed_len(p@),
        decreases j,
    {
        let ghost t = p@.subrange(0, j as int);
        if j == 0 {
            return 0;
        }
        if p.get_char(j - 1) == '/' {
            if j == 1 {
                return 1;
            }
            assert(t.drop_last() =~= p@.subrange(0, j - 1));
            j = j - 1;
        } else {
            let sub = substring(p, 0, j);
            proof {
                lemma_last_index_of(t, '/');
            }
            match find_last_char(sub.as_str(), '/') {
                Some(k) => {
                    if k + 2 == j && p.get_char(k + 1) == '.' {
                        assert(t.subrange(k + 1, t.len() as int) =~= seq!['.']);
                        assert(t.subrange(0, k + 1) =~= p@.subrange(0, k + 1));
                        j = k + 1;
                    } else {
                        assert(t.subrange(k + 1, t.len() as int) != seq!['.']) by {
                            if k + 2 != j {
                                assert(t.subrange(k + 1, t.len() as int).len() != 1);
                            } else {
                                assert(t.subrange(k + 1, t.len() as int)[0] != '.');
                            }
                        }
                        return j;
                    }
                },
                None => {
                    return j;
                },
            }
        }
    }
}

/// Where the last component of a path starts, and where the trimmed path ends.
fn component_bounds(p: &str) -> (r: (usize, usize))
    ensures
        r.1 == trimmed_len(p@),
        r.0 == last_component_start(p@),
        r.0 <= r.1 <= p@.len(),
{
    proof {
        lemma_trimmed_len(p@);
        lemma_last_index_of(trimmed(p@), '/');
    }
    let n = trimmed_length(p);
    let q = substring(p, 0, n);
    let start = match find_last_char(q.as_str(), '/') {
        Some(k) => k + 1,
        None => 0,
    };
    (start, n)
}

/// The file name of a path.
pub fn file_name(p: &str) -> (r: Option<String>)
    ensures
        match r {
            Some(s) => path_file_name(p@) == Some(s@),
            None => path_file_name(p@) is None,
        },
{
    let (start, n) = component_bounds(p);
    let c = substring(p, start, n);
    assert(c@ =~= last_component(p@));
    let cl = c.unicode_len();
    if cl == 0 {
        return None;
    }
    if cl == 1 && c.as_str().get_char(0) == '.' {
        assert(c@ =~= seq!['.']);
        return None;
    }
    if cl == 2 && c.as_str().get_char(0) == '.' && c.as_str().get_char(1) == '.' {
        assert(c@ =~= seq!['.', '.']);
        return None;
    }
    assert(c@ != seq!['.']) by {
        if cl == 1 {
            assert(c@[0] != '.');
        }
    }
    assert(c@ != seq!['.', '.']) by {
        if cl == 2 {
            assert(c@[0] != '.' || c@[1] != '.');
        }
    }
    Some(c)
}

/// The stem of a path's file name.
pub fn file_stem(p: &str) -> (r: Option<String>)
    ensures
        match r {
            Some(s) => path_file_stem(p@) == Some(s@),
            None => path_file_stem(p@) is None,
        },
{
    match file_name(p) {
        None => None,
        Some(name) => {
            proof {
                lemma_last_index_of(name@, '.');
            }
            match find_last_char(name.as_str(), '.') {
                Some(k) => {
                    if k == 0 {
                        Some(name)
                    } else {
                        Some(substring(name.as_str(), 0, k))
                    }
                },
                None => Some(name),
            }
        },
    }
}

/// The extension of a path's file name.
pub fn extension(p: &str) -> (r: Option<String>)
    ensures
        match r {
            Some(s) => path_extension(p@) == Some(s@),
            None => path_extension(p@) is None,
        },
{
    match file_name(p) {
        None => None,
        Some(name) => {
            proof {
                lemma_last_index_of(name@, '.');
            }
            let nl = name.unicode_len();
            match find_last_char(name.as_str(), '.') {
                Some(k) => {
                    if k == 0 {
                        None
                    } else {
                        Some(substring(name.as_str(), k + 1, nl))
                    }
                },
                None => None,
            }
        },
    }
}

/// The path with its extension replaced by `ext`.
pub fn with_extension(p: &str, ext: &str) -> (r: String)
    ensures
        r@ == path_with_extension(p@, ext@),
{
    match file_stem(p) {
        Some(stem) => {
            let (start, n) = component_bounds(p);
            proof {
                let c = last_component(p@);
                lemma_last_index_of(c, '.');
                assert(c =~= p@.subrange(start as int, n as int));
            }
            let sl = stem.unicode_len();
            let mut r = substring(p, 0, start + sl);
            if ext.unicode_len() > 0 {
                push_char(&mut r, '.');
                push_str(&mut r, ext);
            }
            r
        },
        None => to_owned_string(p),
    }
}

/// The parent of a path.
pub fn parent(p: &str) -> (r: Option<String>)
    ensures
        match r {
            Some(s) => path_parent(p@) == Some(s@),
            None => path_parent(p@) is None,
        },
{
    proof {
        lemma_trimmed_len(p@);
    }
    let n = trimmed_length(p);
    let q = substring(p, 0, n);
    if n == 0 {
        return None;
    }
    if n == 1 && q.as_str().get_char(0) == '/' {
        assert(q@ =~= seq!['/']);
        return None;
    }
    assert(q@ != seq!['/']) by {
        if n == 1 {
            assert(q@[0] != '/');
        }
    }
    proof {
        lemma_last_index_of(q@, '/');
    }
    match find_last_char(q.as_str(), '/') {
        None => Some(String::new()),
        Some(k) => {
            let head = substring(q.as_str(), 0, k + 1);
            proof {
                lemma_trimmed_len(head@);
            }
            let m = trimmed_length(head.as_str());
            Some(substring(p, 0, m))
        },
    }
}

/// The pieces of a path with a stem: the trimmed path, where its last
/// component starts, and that component, which holds no `/` and starts
/// with the stem.
proof fn lemma_stem_pieces(p: Seq<char>)
    requires
        path_file_stem(p) is Some,
    ensures
        trimmed_len(p) <= p.len(),
        0 <= last_component_start(p) <= trimmed_len(p),
        last_component_start(p) > 0 ==> trimmed(p)[last_component_start(p) - 1] == '/',
        !last_component(p).contains('/'),
        path_file_stem(p)->0.len() > 0,
        last_component_start(p) + path_file_stem(p)->0.len() <= trimmed_len(p),
        forall|j: int|
            0 <= j < path_file_stem(p)->0.len() ==> path_file_stem(p)->0[j] == p[last_component_start(
                p,
            ) + j],
        last_component(p).len() > 0,
        trimmed(p) != seq!['/'],
{
    lemma_trimmed_len(p);
    let q = trimmed(p);
    lemma_last_index_of(q, '/');
    let s = last_component_start(p);
    let name = last_component(p);
    lemma_last_index_of(name, '.');
    assert(!name.contains('/')) by {
        if name.contains('/') {
            let j = choose|j: int| 0 <= j < name.len() && name[j] == '/';
            assert(q[s + j] == '/');
        }
    }
    assert forall|j: int| 0 <= j < path_file_stem(p)->0.len() implies path_file_stem(p)->0[j]
        == p[s + j] by {
        assert(name[j] == q[s + j]);
    }
    assert(q != seq!['/']) by {
        if q == seq!['/'] {
            assert(s == 1);
        }
    }
}

/// A path that ends in a component that is neither empty nor `.` is not
/// trimmed, and its last component starts after its last `/`.
proof fn lemma_untrimmed(r: Seq<char>, k: int)
    requires
        r.len() > 0,
        r.last() != '/',
        last_index_of(r, '/') == k,
        -1 <= k < r.len(),
        r.subrange(k + 1, r.len() as int) != seq!['.'],
    ensures
        trimmed_len(r) == r.len(),
        trimmed(r) == r,
        last_component_start(r) == k + 1,
        last_component(r) == r.subrange(k + 1, r.len() as int),
{
    assert(trimmed(r) =~= r);
}

/// Replacing the extension of a path that has a stem with one holding no
/// `.` or `/`: the new path has that extension, the same stem and the same
/// parent. So a peer configuration and its metadata file pair up.
pub proof fn lemma_with_extension(p: Seq<char>, ext: Seq<char>)
    requires
        path_file_stem(p) is Some,
        ext.len() > 0,
        !ext.contains('.'),
        !ext.contains('/'),
    ensures
        path_extension(path_with_extension(p, ext)) == Some(ext),
        path_file_stem(path_with_extension(p, ext)) == path_file_stem(p),
        path_parent(path_with_extension(p, ext)) == path_parent(p),
{
    lemma_stem_pieces(p);
    let q = trimmed(p);
    let s = last_component_start(p);
    let k = s - 1;
    let stem = path_file_stem(p)->0;
    let tail = stem + seq!['.'] + ext;
    let r = p.subrange(0, s + stem.len()) + seq!['.'] + ext;
    assert(path_with_extension(p, ext) =~= r);
    assert(r.subrange(s, r.len() as int) =~= tail);
    assert(!tail.contains('/')) by {
        if tail.contains('/') {
            let j = choose|j: int| 0 <= j < tail.len() && tail[j] == '/';
            if j < stem.len() {
                assert(last_component(p)[j] == '/');
            } else if j > stem.len() {
                assert(ext[j - stem.len() - 1] == '/');
            }
        }
    }
    assert forall|j: int| k < j < r.len() implies #[trigger] r[j] != '/' by {
        assert(r[j] == tail[j - s]);
    }
    if k >= 0 {
        assert(r[k] == q[k]);
    } else {
        assert(!r.contains('/')) by {
            if r.contains('/') {
                let j = choose|j: int| 0 <= j < r.len() && r[j] == '/';
                assert(r[j] == tail[j]);
            }
        }
    }
    lemma_last_index_of_unique(r, '/', k);
    assert(r.last() != '/') by {
        assert(r.last() == ext[ext.len() - 1]);
    }
    assert(tail.len() >= 3);
    lemma_untrimmed(r, k);
    let d = stem.len() as int;
    assert forall|j: int| d < j < tail.len() implies #[trigger] tail[j] != '.' by {
        assert(tail[j] == ext[j - d - 1]);
    }
    assert(tail[d] == '.');
    lemma_last_index_of_unique(tail, '.', d);
    assert(tail.subrange(0, d) =~= stem);
    assert(tail.subrange(d + 1, tail.len() as int) =~= ext);
    assert(tail != seq!['.', '.']);
    lemma_with_extension_parent(p, r, k);
}

proof fn lemma_with_extension_parent(p: Seq<char>, r: Seq<char>, k: int)
    requires
        path_file_stem(p) is Some,
        k == last_component_start(p) - 1,
        trimmed(r) == r,
        last_index_of(r, '/') == k,
        r.len() > 0,
        r != seq!['/'],
        last_component_start(p) <= r.len(),
        forall|j: int| 0 <= j < last_component_start(p) ==> r[j] == p[j],
    ensures
        path_parent(r) == path_parent(p),
{
    lemma_stem_pieces(p);
    let q = trimmed(p);
    lemma_last_index_of(q, '/');
    assert(last_index_of(q, '/') == k);
    if k >= 0 {
        assert(r.subrange(0, k + 1) =~= q.subrange(0, k + 1));
        lemma_trimmed_len(q.subrange(0, k + 1));
        let m = trimmed_len(q.subrange(0, k + 1)) as int;
        assert(r.subrange(0, m) =~= p.subrange(0, m));
    }
}

} // verus!
