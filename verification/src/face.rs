//! The face name of a font: the file name of its image without directories
//! and without the last extension.

use vstd::prelude::*;
use vstd::string::*;

verus! {

/// The index of the last `c` in `s`, or -1 where `s` holds none.
pub open spec fn last_index_of(s: Seq<char>, c: char) -> int
    decreases s.len(),
{
    if s.len() == 0 {
        -1
    } else if s.last() == c {
        s.len() - 1
    } else {
        last_index_of(s.drop_last(), c)
    }
}

/// What follows the last `/` of the path; the whole path where it has none.
pub open spec fn file_name(path: Seq<char>) -> Seq<char> {
    path.skip(last_index_of(path, '/') + 1)
}

/// The file name up to its last `.`; the whole file name where it has none.
pub open spec fn file_stem(path: Seq<char>) -> Seq<char> {
    let name = file_name(path);
    let dot = last_index_of(name, '.');
    if dot < 0 {
        name
    } else {
        name.take(dot)
    }
}

/// The name that stands in for a path without a stem.
pub open spec fn default_face() -> Seq<char> {
    "font"@
}

/// The face name that a path gives: its stem, or the default where the stem
/// is empty.
pub open spec fn face_of(path: Seq<char>) -> Seq<char> {
    if file_stem(path).len() == 0 {
        default_face()
    } else {
        file_stem(path)
    }
}

/// The index of the last `c` is -1 or the place of a `c` with none after it.
pub proof fn lemma_last_index_of(s: Seq<char>, c: char)
    ensures
        -1 <= last_index_of(s, c) < s.len(),
        last_index_of(s, c) >= 0 ==> s[last_index_of(s, c)] == c,
        forall|k: int| last_index_of(s, c) < k < s.len() ==> s[k] != c,
    decreases s.len(),
{
    if s.len() > 0 && s.last() != c {
        lemma_last_index_of(s.drop_last(), c);
        assert forall|k: int| last_index_of(s, c) < k < s.len() implies s[k] != c by {
            if k < s.len() - 1 {
                assert(s.drop_last()[k] == s[k]);
            }
        }
    }
}

/// Where a sequence grows by one item, the last `c` is the new item, or
/// stays where it was.
proof fn lemma_last_index_of_push(s: Seq<char>, x: char, c: char)
    ensures
        last_index_of(s.push(x), c) == if x == c {
            s.len() as int
        } else {
            last_index_of(s, c)
        },
{
    assert(s.push(x).drop_last() =~= s);
}

/// Where the stem stands in the path: it starts after the last `/` and
/// holds no `/`; it runs to the end of the path, or to a `.` that no `.`
/// follows.
pub proof fn lemma_stem_place(path: Seq<char>)
    ensures
        ({
            let start = last_index_of(path, '/') + 1;
            let end = start + file_stem(path).len();
            &&& 0 <= start <= end <= path.len()
            &&& start > 0 ==> path[start - 1] == '/'
            &&& file_stem(path) == path.subrange(start, end)
            &&& forall|k: int| start <= k < path.len() ==> path[k] != '/'
            &&& end < path.len() ==> path[end] == '.'
            &&& forall|k: int| end < k < path.len() ==> path[k] != '.'
        }),
{
    let start = last_index_of(path, '/') + 1;
    let name = file_name(path);
    lemma_last_index_of(path, '/');
    lemma_last_index_of(name, '.');
    let dot = last_index_of(name, '.');
    let end = start + file_stem(path).len();
    assert(file_stem(path) =~= path.subrange(start, end));
    assert forall|k: int| end < k < path.len() implies path[k] != '.' by {
        assert(name[k - start] == path[k]);
    }
    if end < path.len() {
        assert(name[dot] == path[end]);
    }
}

/// Finds where the stem of `path` starts and ends, in one pass over its
/// characters.
fn stem_bounds(path: &str) -> (bounds: (usize, usize))
    ensures
        bounds.0 <= bounds.1 <= path@.len(),
        path@.subrange(bounds.0 as int, bounds.1 as int) == file_stem(path@),
{
    let len: usize = path.unicode_len();
    let mut start: usize = 0;
    let mut dot: Option<usize> = None;
    let mut at: usize = 0;
    proof {
        assert(path@.take(0) =~= Seq::<char>::empty());
        assert(file_name(path@.take(0)) =~= Seq::<char>::empty());
    }
    for c in it: path.chars()
        invariant
            it.seq() == path@,
            len == path@.len(),
            at == it.index(),
            start == last_index_of(path@.take(at as int), '/') + 1,
            match dot {
                Some(d) => start <= d < at && d - start == last_index_of(
                    file_name(path@.take(at as int)),
                    '.',
                ),
                None => last_index_of(file_name(path@.take(at as int)), '.') == -1,
            },
    {
        proof {
            let before = path@.take(at as int);
            let after = path@.take(at + 1);
            assert(after =~= before.push(c));
            lemma_last_index_of(before, '/');
            lemma_last_index_of_push(before, c, '/');
            if c == '/' {
                assert(file_name(after) =~= Seq::<char>::empty());
            } else {
                assert(file_name(after) =~= file_name(before).push(c));
                lemma_last_index_of_push(file_name(before), c, '.');
            }
        }
        if c == '/' {
            start = at + 1;
            dot = None;
        } else if c == '.' {
            dot = Some(at);
        }
        at = at + 1;
    }
    proof {
        assert(path@.take(at as int) =~= path@);
    }
    let end: usize = match dot {
        Some(d) => d,
        None => len,
    };
    proof {
        lemma_last_index_of(path@, '/');
        assert(path@.subrange(start as int, end as int) =~= file_stem(path@));
    }
    (start, end)
}

/// The stem of `img_path` as a face name; `None` where the stem is empty,
/// as for an empty path, a path that ends in `/`, or a file name that
/// starts with its only `.`.
pub fn face_name(img_path: &str) -> (face: Option<String>)
    ensures
        match face {
            Some(name) => name@ == file_stem(img_path@) && name@.len() > 0,
            None => file_stem(img_path@).len() == 0,
        },
{
    let (start, end) = stem_bounds(img_path);
    if start == end {
        None
    } else {
        Some(String::from_str(img_path.substring_char(start, end)))
    }
}

} // verus!
