use vstd::prelude::*;
use crate::names::{extension_of, split_name, stem_of};
use crate::text::{chars_of, lower_of, lowercase, string_from_chars};
use crate::utils::{format_size, size_text};

verus! {

broadcast use vstd::seq_lib::group_to_multiset_ensures;

/// Case-sensitive lexicographic order on character sequences, by code point.
pub open spec fn lex_le(a: Seq<char>, b: Seq<char>) -> bool
    decreases a.len(),
{
    if a.len() == 0 {
        true
    } else if b.len() == 0 {
        false
    } else if a[0] != b[0] {
        a[0] < b[0]
    } else {
        lex_le(a.drop_first(), b.drop_first())
    }
}

proof fn lemma_lex_total(a: Seq<char>, b: Seq<char>)
    ensures
        lex_le(a, b) || lex_le(b, a),
    decreases a.len(),
{
    if a.len() > 0 && b.len() > 0 && a[0] == b[0] {
        lemma_lex_total(a.drop_first(), b.drop_first());
    }
}

proof fn lemma_lex_refl(a: Seq<char>)
    ensures
        lex_le(a, a),
    decreases a.len(),
{
    if a.len() > 0 {
        lemma_lex_refl(a.drop_first());
    }
}

proof fn lemma_lex_antisym(a: Seq<char>, b: Seq<char>)
    requires
        lex_le(a, b),
        lex_le(b, a),
    ensures
        a == b,
    decreases a.len(),
{
    if a.len() > 0 && b.len() > 0 {
        lemma_lex_antisym(a.drop_first(), b.drop_first());
        assert(a =~= seq![a[0]] + a.drop_first());
        assert(b =~= seq![b[0]] + b.drop_first());
    } else {
        assert(a =~= b);
    }
}

proof fn lemma_lex_trans(a: Seq<char>, b: Seq<char>, c: Seq<char>)
    requires
        lex_le(a, b),
        lex_le(b, c),
    ensures
        lex_le(a, c),
    decreases a.len(),
{
    if a.len() > 0 && b.len() > 0 && c.len() > 0 && a[0] == b[0] && b[0] == c[0] {
        lemma_lex_trans(a.drop_first(), b.drop_first(), c.drop_first());
    }
}

/// What the directory reader reports of one child of a directory.
pub struct DirChild {
    /// The child's file name.
    pub name: String,
    pub is_dir: bool,
    /// Its length in bytes (ignored for directories).
    pub size: u64,
    /// Its modification time, as it is to be shown.
    pub modified: String,
}

/// One row of a panel.
#[derive(Clone, Debug)]
pub struct Item {
    /// The full file name.
    pub name_full: String,
    /// The name shown: the stem for files, the full name for directories.
    pub name: String,
    pub extension: String,
    pub is_dir: bool,
    pub size_bytes: u64,
    /// The size shown: a formatted size for files, `<DIR>` for directories.
    pub size: String,
    pub modified: String,
}

/// The extension a file is ordered by: none counts as empty.
pub open spec fn extension_or_empty(name: Seq<char>) -> Seq<char> {
    match extension_of(name) {
        Some(e) => e,
        None => Seq::empty(),
    }
}

/// The sort key of a listed child: directory flag, lowercased extension,
/// lowercased full name.
pub open spec fn key_of(c: DirChild) -> (bool, Seq<char>, Seq<char>) {
    (c.is_dir, lower_of(extension_or_empty(c.name@)), lower_of(c.name@))
}

/// The listing order on keys: directories first; directories by name;
/// files by extension, then by name; all case-insensitively.
pub open spec fn key_le(a: (bool, Seq<char>, Seq<char>), b: (bool, Seq<char>, Seq<char>)) -> bool {
    if a.0 != b.0 {
        a.0
    } else if a.0 {
        lex_le(a.2, b.2)
    } else if a.1 != b.1 {
        lex_le(a.1, b.1)
    } else {
        lex_le(a.2, b.2)
    }
}

/// Whether `a` may be listed before `b`.
pub open spec fn listed_before(a: DirChild, b: DirChild) -> bool {
    key_le(key_of(a), key_of(b))
}

proof fn lemma_key_total(a: (bool, Seq<char>, Seq<char>), b: (bool, Seq<char>, Seq<char>))
    ensures
        key_le(a, b) || key_le(b, a),
{
    lemma_lex_total(a.1, b.1);
    lemma_lex_total(a.2, b.2);
}

proof fn lemma_key_trans(
    a: (bool, Seq<char>, Seq<char>),
    b: (bool, Seq<char>, Seq<char>),
    c: (bool, Seq<char>, Seq<char>),
)
    requires
        key_le(a, b),
        key_le(b, c),
    ensures
        key_le(a, c),
{
    if a.0 == b.0 && b.0 == c.0 {
        if a.0 {
            lemma_lex_trans(a.2, b.2, c.2);
        } else if a.1 != b.1 && b.1 != c.1 {
            lemma_lex_trans(a.1, b.1, c.1);
            if a.1 == c.1 {
                lemma_lex_antisym(a.1, b.1);
            }
        } else if a.1 == b.1 && b.1 == c.1 {
            lemma_lex_trans(a.2, b.2, c.2);
        }
    }
}

/// A sequence of children in listing order.
pub open spec fn in_listing_order(s: Seq<DirChild>) -> bool {
    forall|i: int, j: int| 0 <= i < j < s.len() ==> listed_before(#[trigger] s[i], #[trigger] s[j])
}

struct SortKey {
    dir: bool,
    ext: Vec<char>,
    name: Vec<char>,
}

spec fn key_matches(k: SortKey, c: DirChild) -> bool {
    (k.dir, k.ext@, k.name@) == key_of(c)
}

/// Compares two (already lowercased) names in listing order.
pub fn lex_le_exec(a: &Vec<char>, b: &Vec<char>) -> (r: bool)
    ensures
        r == lex_le(a@, b@),
{
    let mut i: usize = 0;
    assert(a@.skip(0) =~= a@);
    assert(b@.skip(0) =~= b@);
    while i < a.len() && i < b.len()
        invariant
            i <= a@.len(),
            i <= b@.len(),
            lex_le(a@, b@) == lex_le(a@.skip(i as int), b@.skip(i as int)),
        decreases a.len() - i,
    {
        assert(a@.skip(i as int).drop_first() =~= a@.skip(i + 1));
        assert(b@.skip(i as int).drop_first() =~= b@.skip(i + 1));
        if a[i] != b[i] {
            return a[i] < b[i];
        }
        i += 1;
    }
    i == a.len()
}

fn key_le_exec(a: &SortKey, b: &SortKey) -> (r: bool)
    ensures
        r == key_le((a.dir, a.ext@, a.name@), (b.dir, b.ext@, b.name@)),
{
    if a.dir != b.dir {
        a.dir
    } else if a.dir {
        lex_le_exec(&a.name, &b.name)
    } else if !crate::text::same_chars(&a.ext, &b.ext) {
        lex_le_exec(&a.ext, &b.ext)
    } else {
        lex_le_exec(&a.name, &b.name)
    }
}

fn sort_key(c: &DirChild) -> (k: SortKey)
    ensures
        key_matches(k, *c),
{
    let name = chars_of(c.name.as_str());
    let (_stem, ext) = split_name(&name);
    let ext_chars = match ext {
        Some(e) => e,
        None => Vec::new(),
    };
    let lower_ext = lowercase(string_from_chars(&ext_chars).as_str());
    let lower_name = lowercase(c.name.as_str());
    SortKey { dir: c.is_dir, ext: chars_of(lower_ext.as_str()), name: chars_of(lower_name.as_str()) }
}

/// Puts the children of a directory in listing order.
pub fn sort_children(children: Vec<DirChild>) -> (r: Vec<DirChild>)
    ensures
        r@.to_multiset() == children@.to_multiset(),
        in_listing_order(r@),
{
    let ghost orig = children@;
    let mut rest = children;
    let mut out: Vec<DirChild> = Vec::new();
    let mut keys: Vec<SortKey> = Vec::new();
    while rest.len() > 0
        invariant
            out@.to_multiset().add(rest@.to_multiset()) == orig.to_multiset(),
            keys@.len() == out@.len(),
            forall|i: int| 0 <= i < out@.len() ==> key_matches(#[trigger] keys@[i], out@[i]),
            in_listing_order(out@),
        decreases rest.len(),
    {
        let ghost rest_before = rest@;
        let c = rest.pop().unwrap();
        proof {
            assert(rest_before =~= rest@.push(c));
        }
        let k = sort_key(&c);
        let mut p: usize = 0;
        while p < keys.len() && key_le_exec(&keys[p], &k)
            invariant
                p <= keys@.len(),
                keys@.len() == out@.len(),
                forall|i: int| 0 <= i < out@.len() ==> key_matches(#[trigger] keys@[i], out@[i]),
                key_matches(k, c),
                forall|q: int| 0 <= q < p ==> listed_before(#[trigger] out@[q], c),
            decreases keys.len() - p,
        {
            assert(key_matches(keys@[p as int], out@[p as int]));
            p += 1;
        }
        proof {
            if p < out@.len() {
                assert(key_matches(keys@[p as int], out@[p as int]));
                lemma_key_total(key_of(out@[p as int]), key_of(c));
            }
            assert forall|q: int| p <= q < out@.len() implies listed_before(c, #[trigger] out@[q]) by {
                if q > p {
                    lemma_key_trans(key_of(c), key_of(out@[p as int]), key_of(out@[q]));
                }
            }
        }
        let ghost old_out = out@;
        out.insert(p, c);
        keys.insert(p, k);
        proof {
            assert forall|i: int, j: int| 0 <= i < j < out@.len() implies listed_before(
                #[trigger] out@[i],
                #[trigger] out@[j],
            ) by {
                if j < p {
                    assert(listed_before(old_out[i], old_out[j]));
                } else if j == p {
                } else if i < p {
                    assert(listed_before(old_out[i], c));
                    assert(listed_before(c, old_out[j - 1]));
                    lemma_key_trans(key_of(old_out[i]), key_of(c), key_of(old_out[j - 1]));
                } else if i == p {
                } else {
                    assert(listed_before(old_out[i - 1], old_out[j - 1]));
                }
            }
            assert forall|i: int| 0 <= i < out@.len() implies key_matches(#[trigger] keys@[i], out@[i]) by {
                if i < p {
                    assert(key_matches(keys@[i], old_out[i]));
                } else if i > p {
                    assert(key_matches(keys@[i], old_out[i - 1]));
                }
            }
            assert(out@.to_multiset().add(rest@.to_multiset()) =~= orig.to_multiset());
        }
    }
    proof {
        assert(out@.to_multiset().add(rest@.to_multiset()) =~= out@.to_multiset());
    }
    out
}

/// In listing order all directories come before all files; directories
/// are ordered by lowercased name, and files by lowercased extension, then
/// by lowercased name.
pub proof fn listing_order_groups(s: Seq<DirChild>)
    requires
        in_listing_order(s),
    ensures
        forall|i: int, j: int| 0 <= i < j < s.len() && #[trigger] s[j].is_dir ==> #[trigger] s[i].is_dir,
        forall|i: int, j: int|
            0 <= i < j < s.len() && (#[trigger] s[i]).is_dir && (#[trigger] s[j]).is_dir ==> lex_le(
                lower_of(s[i].name@),
                lower_of(s[j].name@),
            ),
        forall|i: int, j: int|
            0 <= i < j < s.len() && !(#[trigger] s[i]).is_dir && !(#[trigger] s[j]).is_dir ==> {
                let (ei, ej) = (
                    lower_of(extension_or_empty(s[i].name@)),
                    lower_of(extension_or_empty(s[j].name@)),
                );
                &&& lex_le(ei, ej)
                &&& ei == ej ==> lex_le(lower_of(s[i].name@), lower_of(s[j].name@))
            },
{
    assert forall|i: int, j: int|
        0 <= i < j < s.len() && !(#[trigger] s[i]).is_dir && !(#[trigger] s[j]).is_dir implies {
        let (ei, ej) = (
            lower_of(extension_or_empty(s[i].name@)),
            lower_of(extension_or_empty(s[j].name@)),
        );
        &&& lex_le(ei, ej)
        &&& ei == ej ==> lex_le(lower_of(s[i].name@), lower_of(s[j].name@))
    } by {
        assert(listed_before(s[i], s[j]));
        lemma_lex_refl(lower_of(extension_or_empty(s[i].name@)));
    }
}

/// The row shown for a listed child.
pub open spec fn describes(it: Item, c: DirChild) -> bool {
    &&& it.name_full@ == c.name@
    &&& it.is_dir == c.is_dir
    &&& it.modified@ == c.modified@
    &&& if c.is_dir {
        &&& it.name@ == c.name@
        &&& it.extension@ == Seq::<char>::empty()
        &&& it.size_bytes == 0
        &&& it.size@ == "<DIR>"@
    } else {
        &&& it.name@ == stem_of(c.name@)
        &&& it.extension@ == extension_or_empty(c.name@)
        &&& it.size_bytes == c.size
        &&& it.size@ == size_text(c.size as nat)
    }
}

/// The synthetic entry that leads to the parent directory.
pub open spec fn is_parent_item(it: Item) -> bool {
    &&& it.name_full@ == ".."@
    &&& it.name@ == ".."@
    &&& it.extension@ == Seq::<char>::empty()
    &&& it.is_dir
    &&& it.size_bytes == 0
    &&& it.size@ == Seq::<char>::empty()
    &&& it.modified@ == Seq::<char>::empty()
}

/// The entry that leads to the parent directory.
pub fn parent_item() -> (r: Item)
    ensures
        is_parent_item(r),
{
    Item {
        name_full: String::from_str(".."),
        name: String::from_str(".."),
        extension: String::new(),
        is_dir: true,
        size_bytes: 0,
        size: String::new(),
        modified: String::new(),
    }
}

/// The row for one listed child.
pub fn item_from(c: &DirChild) -> (r: Item)
    ensures
        describes(r, *c),
{
    if c.is_dir {
        Item {
            name_full: c.name.clone(),
            name: c.name.clone(),
            extension: String::new(),
            is_dir: true,
            size_bytes: 0,
            size: String::from_str("<DIR>"),
            modified: c.modified.clone(),
        }
    } else {
        let chars = chars_of(c.name.as_str());
        let (stem, ext) = split_name(&chars);
        let ext_chars = match ext {
            Some(e) => e,
            None => Vec::new(),
        };
        Item {
            name_full: c.name.clone(),
            name: string_from_chars(&stem),
            extension: string_from_chars(&ext_chars),
            is_dir: false,
            size_bytes: c.size,
            size: format_size(c.size),
            modified: c.modified.clone(),
        }
    }
}

/// The rows of a directory listing: the parent entry first when the
/// directory has a parent, then every child once, in listing order.
pub fn load_directory_rows(children: Vec<DirChild>, has_parent: bool) -> (r: Vec<Item>)
    ensures
        r@.len() == children@.len() + if has_parent { 1int } else { 0int },
        has_parent ==> is_parent_item(r@[0]),
        exists|s: Seq<DirChild>|
            {
                &&& s.to_multiset() == children@.to_multiset()
                &&& s.len() == children@.len()
                &&& in_listing_order(s)
                &&& forall|i: int|
                    0 <= i < s.len() ==> describes(
                        r@[i + if has_parent { 1int } else { 0int }],
                        #[trigger] s[i],
                    )
            },
        forall|i: int, j: int|
            (if has_parent { 1int } else { 0int }) <= i < j < r@.len() && r@[j].is_dir
                ==> r@[i].is_dir,
{
    let ghost n = children@.len();
    let sorted = sort_children(children);
    proof {
        sorted@.to_multiset_ensures();
        children@.to_multiset_ensures();
    }
    let ghost off: int = if has_parent { 1int } else { 0int };
    let mut rows: Vec<Item> = Vec::new();
    if has_parent {
        rows.push(parent_item());
    }
    let mut i: usize = 0;
    while i < sorted.len()
        invariant
            rows@.len() == i + off,
            off == if has_parent { 1int } else { 0int },
            has_parent ==> is_parent_item(rows@[0]),
            i <= sorted@.len(),
            forall|k: int| 0 <= k < i ==> describes(#[trigger] rows@[k + off], sorted@[k]),
        decreases sorted.len() - i,
    {
        rows.push(item_from(&sorted[i]));
        proof {
            assert(describes(rows@[i + off], sorted@[i as int]));
        }
        i += 1;
    }
    proof {
        assert forall|a: int, b: int|
            off <= a < b < rows@.len() && rows@[b].is_dir implies rows@[a].is_dir by {
            assert(describes(rows@[(a - off) + off], sorted@[a - off]));
            assert(describes(rows@[(b - off) + off], sorted@[b - off]));
            assert(listed_before(sorted@[a - off], sorted@[b - off]));
        }
    }
    assert(forall|k: int| 0 <= k < sorted@.len() ==> describes(rows@[k + off], #[trigger] sorted@[k]));
    rows
}

} // verus!
