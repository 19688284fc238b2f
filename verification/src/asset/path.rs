//! File names, stems and extensions of paths, with the meaning that
//! `std::path::Path` gives them: components are separated by `/`, and also
//! by `\` where the platform takes it as a separator (on Windows). The
//! drive and share prefixes of Windows paths are not treated apart.

use vstd::prelude::*;

verus! {

/// Whether `c` separates components: `/` always, `\` when `backslash` holds.
pub open spec fn is_path_separator(c: char, backslash: bool) -> bool {
    c == '/' || (backslash && c == '\\')
}

/// Calls `std::path::is_separator`, which tells whether `c` is a path
/// separator of the platform: `/` is one everywhere, and no character
/// other than `/` and `\` is one. Whether `\` is one depends on the
/// platform and is not stated.
#[verifier::external_body]
fn is_separator(c: char) -> (r: bool)
    ensures
        c == '/' ==> r,
        r ==> c == '/' || c == '\\',
{
    std::path::is_separator(c)
}

/// Whether the platform takes `\` as a path separator (it does on Windows).
pub fn platform_backslash_separates() -> bool {
    is_separator('\\')
}

/// Appends the component `cur` to `done` unless it is empty or `.`.
pub open spec fn keep_component(done: Seq<Seq<char>>, cur: Seq<char>) -> Seq<Seq<char>> {
    if cur.len() == 0 || cur == seq!['.'] {
        done
    } else {
        done.push(cur)
    }
}

/// Reading `p` from the left: the components completed so far and the one being read.
pub open spec fn scan_components(p: Seq<char>, backslash: bool) -> (Seq<Seq<char>>, Seq<char>)
    decreases p.len(),
{
    if p.len() == 0 {
        (seq![], seq![])
    } else {
        let prev = scan_components(p.drop_last(), backslash);
        if is_path_separator(p.last(), backslash) {
            (keep_component(prev.0, prev.1), seq![])
        } else {
            (prev.0, prev.1.push(p.last()))
        }
    }
}

/// The components of `p` between separators, without empty ones and without `.`.
pub open spec fn path_components(p: Seq<char>, backslash: bool) -> Seq<Seq<char>> {
    keep_component(scan_components(p, backslash).0, scan_components(p, backslash).1)
}

/// The final component of `p`, unless there is none or it is `..`.
pub open spec fn path_file_name(p: Seq<char>, backslash: bool) -> Option<Seq<char>> {
    let c = path_components(p, backslash);
    if c.len() == 0 || c.last() == seq!['.', '.'] {
        None
    } else {
        Some(c.last())
    }
}

/// The index of the last `.` in `s`, or `-1` when there is none.
pub open spec fn last_dot(s: Seq<char>) -> int
    decreases s.len(),
{
    if s.len() == 0 {
        -1
    } else if s.last() == '.' {
        s.len() - 1
    } else {
        last_dot(s.drop_last())
    }
}

/// The stem of a file name: the part before its last `.`, or the whole name
/// when it has no `.` or its only leading `.` is the last one.
pub open spec fn name_stem(name: Seq<char>) -> Seq<char> {
    let k = last_dot(name);
    if k <= 0 {
        name
    } else {
        name.take(k)
    }
}

/// The extension of a file name: the part after its last `.`, if that `.` is not its first character.
pub open spec fn name_extension(name: Seq<char>) -> Option<Seq<char>> {
    let k = last_dot(name);
    if k <= 0 {
        None
    } else {
        Some(name.skip(k + 1))
    }
}

/// The stem of the file name of `p`.
pub open spec fn path_file_stem(p: Seq<char>, backslash: bool) -> Option<Seq<char>> {
    match path_file_name(p, backslash) {
        Some(n) => Some(name_stem(n)),
        None => None,
    }
}

/// The extension of the file name of `p`.
pub open spec fn path_extension(p: Seq<char>, backslash: bool) -> Option<Seq<char>> {
    match path_file_name(p, backslash) {
        Some(n) => name_extension(n),
        None => None,
    }
}

proof fn lemma_last_dot_bounds(s: Seq<char>)
    ensures
        -1 <= last_dot(s) < s.len(),
        last_dot(s) >= 0 ==> s[last_dot(s)] == '.',
    decreases s.len(),
{
    if s.len() > 0 && s.last() != '.' {
        lemma_last_dot_bounds(s.drop_last());
    }
}

/// The position `(a, b)` of the file name of `path`, as character indices.
fn file_name_range(path: &str, backslash: bool) -> (r: Option<(usize, usize)>)
    ensures
        r is Some <==> path_file_name(path@, backslash) is Some,
        r matches Some((a, b)) ==> a <= b <= path@.len() && path_file_name(path@, backslash) == Some(
            path@.subrange(a as int, b as int),
        ),
{
    let n = path.unicode_len();
    let ghost p = path@;
    let mut start: usize = 0;
    let mut last: Option<(usize, usize)> = None;
    let mut i: usize = 0;
    assert(p.take(0) =~= seq![]);
    while i < n
        invariant
            n == p.len(),
            p == path@,
            start <= i <= n,
            scan_components(p.take(i as int), backslash).1 == p.subrange(start as int, i as int),
            last is None <==> scan_components(p.take(i as int), backslash).0.len() == 0,
            last matches Some((a, b)) ==> a <= b <= i && scan_components(p.take(i as int), backslash).0.last()
                == p.subrange(a as int, b as int),
        decreases n - i,
    {
        let c = path.get_char(i);
        assert(p.take(i + 1).drop_last() =~= p.take(i as int));
        assert(p.take(i + 1).last() == c);
        if c == '/' || (backslash && c == '\\') {
            let is_dot = i - start == 1 && path.get_char(start) == '.';
            let ghost cur = p.subrange(start as int, i as int);
            assert(is_dot <==> cur == seq!['.']) by {
                if cur.len() == 1 {
                    assert(cur[0] == p[start as int]);
                }
                if cur == seq!['.'] {
                    assert(cur.len() == 1);
                }
                if is_dot {
                    assert(cur =~= seq!['.']);
                }
            }
            if i > start && !is_dot {
                last = Some((start, i));
            }
            start = i + 1;
            assert(p.subrange(start as int, (i + 1) as int) =~= seq![]);
        } else {
            assert(p.subrange(start as int, (i + 1) as int) =~= p.subrange(start as int, i as int).push(
                c,
            ));
        }
        i = i + 1;
    }
    assert(p.take(n as int) =~= p);
    let cur_len = n - start;
    let is_dot = cur_len == 1 && path.get_char(start) == '.';
    proof {
        let cur = p.subrange(start as int, n as int);
        if cur == seq!['.'] {
            assert(cur[0] == p[start as int]);
        }
        if is_dot {
            assert(cur =~= seq!['.']);
        }
    }
    if cur_len > 0 && !is_dot {
        last = Some((start, n));
    }
    match last {
        None => None,
        Some((a, b)) => {
            let is_parent = b - a == 2 && path.get_char(a) == '.' && path.get_char(a + 1) == '.';
            proof {
                let name = p.subrange(a as int, b as int);
                if name == seq!['.', '.'] {
                    assert(name[0] == p[a as int]);
                    assert(name[1] == p[a + 1]);
                }
                if is_parent {
                    assert(name =~= seq!['.', '.']);
                }
            }
            if is_parent {
                None
            } else {
                Some((a, b))
            }
        },
    }
}

/// The index within `path[a..b]` of its last `.`, if it has one.
fn last_dot_in(path: &str, a: usize, b: usize) -> (k: Option<usize>)
    requires
        a <= b <= path@.len(),
    ensures
        k is None <==> last_dot(path@.subrange(a as int, b as int)) == -1,
        k matches Some(k) ==> k as int == last_dot(path@.subrange(a as int, b as int)),
{
    let ghost s = path@.subrange(a as int, b as int);
    let mut k: Option<usize> = None;
    let mut j: usize = a;
    assert(s.take(0) =~= seq![]);
    while j < b
        invariant
            a <= j <= b <= path@.len(),
            s == path@.subrange(a as int, b as int),
            k is None <==> last_dot(s.take(j - a)) == -1,
            k matches Some(k) ==> k as int == last_dot(s.take(j - a)),
        decreases b - j,
    {
        let c = path.get_char(j);
        assert(s.take(j - a + 1).drop_last() =~= s.take(j - a));
        assert(s.take(j - a + 1).last() == c);
        if c == '.' {
            k = Some(j - a);
        }
        proof {
            lemma_last_dot_bounds(s.take(j - a));
        }
        j = j + 1;
    }
    assert(s.take(b - a) =~= s);
    k
}

/// The stem of the file name of `path`, as `Path::file_stem` gives it
/// (with `\` a separator when `backslash` holds).
pub fn file_stem(path: &str, backslash: bool) -> (r: Option<String>)
    ensures
        r is Some <==> path_file_stem(path@, backslash) is Some,
        r matches Some(s) ==> path_file_stem(path@, backslash) == Some(s@),
{
    match file_name_range(path, backslash) {
        None => None,
        Some((a, b)) => {
            let ghost name = path@.subrange(a as int, b as int);
            proof {
                lemma_last_dot_bounds(name);
            }
            match last_dot_in(path, a, b) {
                Some(k) if k > 0 => {
                    let e = a + k;
                    assert(path@.subrange(a as int, e as int) =~= name.take(k as int));
                    Some(String::from_str(path.substring_char(a, e)))
                },
                _ => Some(String::from_str(path.substring_char(a, b))),
            }
        },
    }
}

/// The extension of the file name of `path`, as `Path::extension` gives it
/// (with `\` a separator when `backslash` holds).
pub fn extension(path: &str, backslash: bool) -> (r: Option<String>)
    ensures
        r is Some <==> path_extension(path@, backslash) is Some,
        r matches Some(s) ==> path_extension(path@, backslash) == Some(s@),
{
    match file_name_range(path, backslash) {
        None => None,
        Some((a, b)) => {
            let ghost name = path@.subrange(a as int, b as int);
            proof {
                lemma_last_dot_bounds(name);
            }
            match last_dot_in(path, a, b) {
                Some(k) if k > 0 => {
                    let s = a + k + 1;
                    assert(path@.subrange(s as int, b as int) =~= name.skip(k + 1));
                    Some(String::from_str(path.substring_char(s, b)))
                },
                _ => None,
            }
        },
    }
}

/// The file name is its stem, a `.` and its extension, whenever it has an extension.
pub proof fn lemma_stem_dot_extension(p: Seq<char>, backslash: bool)
    requires
        path_extension(p, backslash) is Some,
    ensures
        path_file_name(p, backslash) == Some(
            path_file_stem(p, backslash).unwrap() + seq!['.'] + path_extension(p, backslash).unwrap(),
        ),
{
    let n = path_file_name(p, backslash).unwrap();
    lemma_last_dot_bounds(n);
    let k = last_dot(n);
    assert(n =~= n.take(k) + seq!['.'] + n.skip(k + 1));
}

} // verus!
