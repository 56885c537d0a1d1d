use vstd::prelude::*;
use crate::text::chars_of;

verus! {

/// The index of the last occurrence of `c` in `s`, or -1.
pub open spec fn last_index_of(s: Seq<char>, c: char) -> int
    decreases s.len(),
{
    if s.len() == 0 {
        -1
    } else if s.last() == c {
        s.len() - 1
    } else {
        last_index_of(s.drop_last(), c)
    }
}

proof fn lemma_last_index_bounds(s: Seq<char>, c: char)
    ensures
        -1 <= last_index_of(s, c) < s.len(),
        last_index_of(s, c) >= 0 ==> s[last_index_of(s, c)] == c,
        forall|k: int| last_index_of(s, c) < k < s.len() ==> s[k] != c,
    decreases s.len(),
{
    if s.len() > 0 && s.last() != c {
        lemma_last_index_bounds(s.drop_last(), c);
        assert forall|k: int| last_index_of(s, c) < k < s.len() implies s[k] != c by {
            if k < s.len() - 1 {
                assert(s.drop_last()[k] == s[k]);
            }
        }
    }
}

/// Finds the last occurrence of `c` in `s`.
pub fn last_index(s: &Vec<char>, c: char) -> (r: Option<usize>)
    ensures
        match r {
            Some(i) => i < s@.len() && i as int == last_index_of(s@, c),
            None => last_index_of(s@, c) == -1,
        },
{
    let mut i: usize = s.len();
    assert(s@.subrange(0, i as int) =~= s@);
    proof {
        lemma_last_index_bounds(s@, c);
    }
    while i > 0
        invariant
            i <= s@.len(),
            last_index_of(s@, c) == last_index_of(s@.subrange(0, i as int), c),
        decreases i,
    {
        let ghost pre = s@.subrange(0, i as int);
        assert(pre.drop_last() =~= s@.subrange(0, i - 1));
        if s[i - 1] == c {
            return Some(i - 1);
        }
        i -= 1;
    }
    None
}

/// Whether `name` is the parent-directory name `..`.
pub open spec fn is_parent_name(name: Seq<char>) -> bool {
    name == seq!['.', '.']
}

/// Where the extension of a file name starts: after its last dot, where that
/// dot is not the name's first character. -1 when the name has no extension.
pub open spec fn extension_dot(name: Seq<char>) -> int {
    if is_parent_name(name) || last_index_of(name, '.') <= 0 {
        -1
    } else {
        last_index_of(name, '.')
    }
}

/// The file name without its extension (the whole name when it has none).
pub open spec fn stem_of(name: Seq<char>) -> Seq<char> {
    if extension_dot(name) < 0 {
        name
    } else {
        name.subrange(0, extension_dot(name))
    }
}

/// The extension of a file name, without the dot; `None` when it has none.
pub open spec fn extension_of(name: Seq<char>) -> Option<Seq<char>> {
    if extension_dot(name) < 0 {
        None
    } else {
        Some(name.subrange(extension_dot(name) + 1, name.len() as int))
    }
}

fn sub_chars(s: &Vec<char>, from: usize, to: usize) -> (r: Vec<char>)
    requires
        from <= to <= s@.len(),
    ensures
        r@ == s@.subrange(from as int, to as int),
{
    let mut v: Vec<char> = Vec::new();
    let mut i: usize = from;
    while i < to
        invariant
            from <= i <= to <= s@.len(),
            v@ == s@.subrange(from as int, i as int),
        decreases to - i,
    {
        v.push(s[i]);
        i += 1;
        assert(v@ =~= s@.subrange(from as int, i as int));
    }
    v
}

fn is_dot_dot(name: &Vec<char>) -> (r: bool)
    ensures
        r == is_parent_name(name@),
{
    let r = name.len() == 2 && name[0] == '.' && name[1] == '.';
    proof {
        if name@.len() == 2 && name@[0] == '.' && name@[1] == '.' {
            assert(name@ =~= seq!['.', '.']);
        }
    }
    r
}

/// Splits a file name into its stem and its extension, as a path's
/// `file_stem` and `extension` do for a final component.
pub fn split_name(name: &Vec<char>) -> (r: (Vec<char>, Option<Vec<char>>))
    ensures
        r.0@ == stem_of(name@),
        match r.1 {
            Some(e) => extension_of(name@) == Some(e@),
            None => extension_of(name@) == None::<Seq<char>>,
        },
{
    proof {
        lemma_last_index_bounds(name@, '.');
    }
    if is_dot_dot(name) {
        return (name.clone(), None);
    }
    let n = name.len();
    match last_index(name, '.') {
        Some(i) => {
            if i == 0 {
                (name.clone(), None)
            } else {
                (sub_chars(name, 0, i), Some(sub_chars(name, i + 1, n)))
            }
        },
        None => (name.clone(), None),
    }
}

/// The last component of a `/`-separated path.
pub open spec fn final_component(path: Seq<char>) -> Seq<char> {
    path.subrange(last_index_of(path, '/') + 1, path.len() as int)
}

/// The last component of a `/`-separated path.
pub fn file_name_of(path: &Vec<char>) -> (r: Vec<char>)
    ensures
        r@ == final_component(path@),
{
    proof {
        lemma_last_index_bounds(path@, '/');
    }
    let n = path.len();
    match last_index(path, '/') {
        Some(i) => sub_chars(path, i + 1, n),
        None => {
            assert(path@.subrange(0, n as int) =~= path@.subrange(
                last_index_of(path@, '/') + 1,
                n as int,
            ));
            sub_chars(path, 0, n)
        },
    }
}

/// `name` inside the directory `dir`, for `/`-separated paths.
pub open spec fn join_path(dir: Seq<char>, name: Seq<char>) -> Seq<char> {
    if dir.len() == 0 {
        name
    } else if dir.last() == '/' {
        dir + name
    } else {
        dir + seq!['/'] + name
    }
}

/// The path of `name` inside the directory `dir`.
pub fn join_path_exec(dir: &String, name: &String) -> (r: String)
    ensures
        r@ == join_path(dir@, name@),
{
    let d = chars_of(dir.as_str());
    let n = d.len();
    if n == 0 {
        return name.clone();
    }
    let mut r = dir.clone();
    if d[n - 1] != '/' {
        r.append("/");
        proof {
            reveal_strlit("/");
        }
    }
    r.append(name.as_str());
    r
}

} // verus!
