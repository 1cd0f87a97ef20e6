//! A plain-string model of the file paths the library works with.
//!
//! Paths are ordinary strings. The file name of a path is everything after
//! its last `/` (empty when the path ends in `/`), and the stem of a file
//! name is the part before its last `.`, except that a `.` in the leading
//! position does not start an extension. The library performs no path
//! normalization beyond this.

use vstd::prelude::*;
use vstd::string::*;

verus! {

/// Index right after the last `/` of `s`; `0` when `s` holds no `/`.
pub open spec fn file_name_start(s: Seq<char>) -> int
    decreases s.len(),
{
    if s.len() == 0 {
        0
    } else if s.last() == '/' {
        s.len() as int
    } else {
        file_name_start(s.drop_last())
    }
}

pub proof fn lemma_file_name_start_bounds(s: Seq<char>)
    ensures
        0 <= file_name_start(s) <= s.len(),
    decreases s.len(),
{
    if s.len() > 0 && s.last() != '/' {
        lemma_file_name_start_bounds(s.drop_last());
    }
}

/// The file name of a path: everything after its last `/`.
pub open spec fn file_name_spec(s: Seq<char>) -> Seq<char> {
    s.subrange(file_name_start(s), s.len() as int)
}

/// Index of the last `.` of `s`; `-1` when `s` holds no `.`.
pub open spec fn last_dot_index(s: Seq<char>) -> int
    decreases s.len(),
{
    if s.len() == 0 {
        -1
    } else if s.last() == '.' {
        s.len() - 1
    } else {
        last_dot_index(s.drop_last())
    }
}

pub proof fn lemma_last_dot_index_bounds(s: Seq<char>)
    ensures
        -1 <= last_dot_index(s) < s.len(),
    decreases s.len(),
{
    if s.len() > 0 && s.last() != '.' {
        lemma_last_dot_index_bounds(s.drop_last());
    }
}

/// Length of the stem of a file name: up to the last `.`, unless that `.`
/// stands first (a leading dot hides a file rather than starting an
/// extension) or there is none.
pub open spec fn stem_len(name: Seq<char>) -> int {
    let d = last_dot_index(name);
    if d > 0 {
        d
    } else {
        name.len() as int
    }
}

/// Joining a directory path and a file path: the second wins when it is
/// absolute; otherwise a single `/` separates them.
pub open spec fn join_paths(a: Seq<char>, f: Seq<char>) -> Seq<char> {
    if f.len() > 0 && f[0] == '/' {
        f
    } else if a.len() == 0 {
        f
    } else if a.last() == '/' {
        a + f
    } else {
        a + seq!['/'] + f
    }
}

/// Replacing the extension of a path's file name by `txt`.
pub open spec fn with_txt_extension(p: Seq<char>) -> Seq<char> {
    let ns = file_name_start(p);
    let name = p.subrange(ns, p.len() as int);
    p.subrange(0, ns + stem_len(name)) + ".txt"@
}

/// Where an archive file lives: the archive directory joined with the
/// archive's name, under the `txt` extension.
pub open spec fn build_path_spec(archive_path: Seq<char>, filename: Seq<char>) -> Seq<char> {
    with_txt_extension(join_paths(archive_path, filename))
}

/// Scan for the start of the file name of `s`: the index right after the
/// last `/`.
pub fn find_file_name_start(s: &str) -> (i: usize)
    ensures
        i == file_name_start(s@),
{
    let n = s.unicode_len();
    proof {
        assert(s@.take(n as int) =~= s@);
    }
    let mut i = n;
    while i > 0 && s.get_char(i - 1) != '/'
        invariant
            i <= n,
            n == s@.len(),
            file_name_start(s@) == file_name_start(s@.take(i as int)),
        decreases i,
    {
        proof {
            let t = s@.take(i as int);
            assert(t.last() == s@[i - 1]);
            assert(t.drop_last() =~= s@.take(i - 1));
        }
        i = i - 1;
    }
    proof {
        if i > 0 {
            assert(s@.take(i as int).last() == s@[i - 1]);
            assert(s@.take(i as int).len() == i);
        }
    }
    i
}

/// Scan for the end of the stem of the file name region `[from, len)` of
/// `s`: the absolute index at which the `txt` extension is to be attached.
pub fn find_stem_end(s: &str, from: usize) -> (cut: usize)
    requires
        from == file_name_start(s@),
    ensures
        from <= cut <= s@.len(),
        cut == from + stem_len(file_name_spec(s@)),
{
    let ghost name = file_name_spec(s@);
    let n = s.unicode_len();
    proof {
        lemma_file_name_start_bounds(s@);
        lemma_last_dot_index_bounds(name);
        assert(name.take(n - from) =~= name);
    }
    let mut j = n;
    while j > from && s.get_char(j - 1) != '.'
        invariant
            from <= j <= n,
            n == s@.len(),
            from == file_name_start(s@),
            name == file_name_spec(s@),
            last_dot_index(name) == last_dot_index(name.take(j - from)),
        decreases j,
    {
        proof {
            let t = name.take(j - from);
            assert(t.last() == name[j - 1 - from]);
            assert(name[j - 1 - from] == s@[j - 1]);
            assert(t.drop_last() =~= name.take(j - 1 - from));
        }
        j = j - 1;
    }
    proof {
        lemma_last_dot_index_bounds(name);
        if j > from {
            let t = name.take(j - from);
            assert(t.last() == name[j - 1 - from]);
            assert(name[j - 1 - from] == s@[j - 1]);
            assert(last_dot_index(name) == j - 1 - from);
        } else {
            assert(name.take(0) =~= Seq::<char>::empty());
            assert(last_dot_index(name) == -1);
        }
    }
    if j - from >= 2 {
        j - 1
    } else {
        proof {
            assert(name.len() == s@.len() - from);
        }
        n
    }
}

} // verus!
