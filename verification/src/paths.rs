//! Paths as text, read through the components that `std::path` finds in them.
use vstd::prelude::*;

use crate::order::{is_total_order, lex_order, lemma_lex_total_order, text_order, lemma_text_total_order, lemma_text_facts, compare_text};
use crate::text::{chars_of, string_of};

verus! {

/// One component of a path, with the variants of `std::path::Component` in
/// their declared order.
pub enum PathPart {
    /// A Windows path prefix; never produced for Unix paths.
    Prefix(String),
    Root,
    Current,
    Parent,
    Normal(String),
}

/// A component as a rank (the variant's place in the declaration) and its text.
pub open spec fn part_view(p: PathPart) -> (int, Seq<char>) {
    match p {
        PathPart::Prefix(s) => (0, s@),
        PathPart::Root => (1, Seq::empty()),
        PathPart::Current => (2, Seq::empty()),
        PathPart::Parent => (3, Seq::empty()),
        PathPart::Normal(s) => (4, s@),
    }
}

/// The rank that `part_view` gives a normal component.
pub open spec fn normal_rank() -> int {
    4
}

/// The pieces of `path` between its `/` separators, empty ones included.
pub open spec fn separated(path: Seq<char>) -> Seq<Seq<char>>
    decreases path.len(),
{
    if path.len() == 0 {
        seq![Seq::empty()]
    } else {
        let earlier = separated(path.drop_last());
        if path.last() == '/' {
            earlier.push(Seq::empty())
        } else {
            earlier.update(earlier.len() - 1, earlier.last().push(path.last()))
        }
    }
}

/// The pieces that name components: empty pieces and `.` are skipped, `..` is
/// a parent component, anything else a normal one.
pub open spec fn named_parts(pieces: Seq<Seq<char>>) -> Seq<(int, Seq<char>)>
    decreases pieces.len(),
{
    if pieces.len() == 0 {
        Seq::empty()
    } else {
        let earlier = named_parts(pieces.drop_last());
        let piece = pieces.last();
        if piece.len() == 0 || piece == seq!['.'] {
            earlier
        } else if piece == seq!['.', '.'] {
            earlier.push((3, Seq::empty()))
        } else {
            earlier.push((4, piece))
        }
    }
}

/// The components of a Unix path, each as `part_view` shows it: a root when
/// the path starts with `/`; a current-directory component when it is `.` or
/// starts with `./`; then the named pieces between separators.
pub open spec fn path_components(path: Seq<char>) -> Seq<(int, Seq<char>)> {
    let lead: Seq<(int, Seq<char>)> = if path.len() > 0 && path[0] == '/' {
        seq![(1, Seq::empty())]
    } else if path.len() > 0 && path[0] == '.' && (path.len() == 1 || path[1] == '/') {
        seq![(2, Seq::empty())]
    } else {
        Seq::empty()
    };
    lead + named_parts(separated(path))
}

/// Calls `std::path::Path::components` on `path` and copies each component
/// into a `PathPart`. Claimed: the copies, seen through `part_view`, are
/// `path_components(path)`, as the documentation of `Path::components` gives
/// them for Unix paths: repeated separators and `.` pieces are skipped but for
/// a leading `.`, and a trailing separator adds nothing.
#[verifier::external_body]
fn components_of(path: &str) -> (parts: Vec<PathPart>)
    ensures
        parts@.map_values(|p: PathPart| part_view(p)) == path_components(path@),
{
    std::path::Path::new(path).components().map(|c| match c {
        std::path::Component::Prefix(p) => PathPart::Prefix(p.as_os_str().to_string_lossy().into_owned()),
        std::path::Component::RootDir => PathPart::Root,
        std::path::Component::CurDir => PathPart::Current,
        std::path::Component::ParentDir => PathPart::Parent,
        std::path::Component::Normal(n) => PathPart::Normal(n.to_string_lossy().into_owned()),
    }).collect()
}

// ---------------------------------------------------------------------------
// File names, stems and extensions
// ---------------------------------------------------------------------------

/// The final component of `path` when it is a normal one (`Path::file_name`).
pub open spec fn file_name_of(path: Seq<char>) -> Option<Seq<char>> {
    let parts = path_components(path);
    if parts.len() > 0 && parts.last().0 == normal_rank() {
        Some(parts.last().1)
    } else {
        None
    }
}

/// The index of the last occurrence of `c` in `s`.
pub open spec fn last_index_of(s: Seq<char>, c: char) -> Option<int>
    decreases s.len(),
{
    if s.len() == 0 {
        None
    } else if s.last() == c {
        Some(s.len() - 1)
    } else {
        last_index_of(s.drop_last(), c)
    }
}

/// The stem of a file name: the part before the last `.`, or the whole name
/// when it has no `.` or its only `.` is the first character.
pub open spec fn stem_of(name: Seq<char>) -> Seq<char> {
    match last_index_of(name, '.') {
        Some(k) => if k > 0 {
            name.subrange(0, k)
        } else {
            name
        },
        None => name,
    }
}

/// The extension of a file name: the part after the last `.`, absent when it
/// has no `.` or its only `.` is the first character.
pub open spec fn extension_of(name: Seq<char>) -> Option<Seq<char>> {
    match last_index_of(name, '.') {
        Some(k) => if k > 0 {
            Some(name.subrange(k + 1, name.len() as int))
        } else {
            None
        },
        None => None,
    }
}

/// The stem of the file name of `path` (`Path::file_stem`).
pub open spec fn file_stem_of(path: Seq<char>) -> Option<Seq<char>> {
    match file_name_of(path) {
        Some(name) => Some(stem_of(name)),
        None => None,
    }
}

/// The extension of the file name of `path` (`Path::extension`).
pub open spec fn file_extension_of(path: Seq<char>) -> Option<Seq<char>> {
    match file_name_of(path) {
        Some(name) => extension_of(name),
        None => None,
    }
}

/// The final component of `path`, when it is a normal component.
pub fn file_name(path: &str) -> (r: Option<String>)
    ensures
        match r {
            Some(n) => file_name_of(path@) == Some(n@),
            None => file_name_of(path@) is None,
        },
{
    let mut parts = components_of(path);
    let ghost views = parts@.map_values(|p: PathPart| part_view(p));
    match parts.pop() {
        Some(PathPart::Normal(name)) => {
            assert(views.last() == part_view(PathPart::Normal(name)));
            Some(name)
        },
        Some(other) => {
            assert(views.last() == part_view(other));
            None
        },
        None => None,
    }
}

fn last_dot(name: &Vec<char>) -> (r: Option<usize>)
    ensures
        match r {
            Some(k) => last_index_of(name@, '.') == Some(k as int) && k < name@.len(),
            None => last_index_of(name@, '.') is None,
        },
{
    let mut i = name.len();
    assert(name@.subrange(0, i as int) == name@);
    while i > 0
        invariant
            i <= name@.len(),
            last_index_of(name@, '.') == last_index_of(name@.subrange(0, i as int), '.'),
        decreases i,
    {
        if name[i - 1] == '.' {
            return Some(i - 1);
        }
        assert(name@.subrange(0, i as int).drop_last() == name@.subrange(0, i - 1));
        i -= 1;
    }
    None
}

/// The stem of the file name of `path`.
pub fn file_stem(path: &str) -> (r: Option<String>)
    ensures
        match r {
            Some(s) => file_stem_of(path@) == Some(s@),
            None => file_stem_of(path@) is None,
        },
{
    match file_name(path) {
        None => None,
        Some(name) => {
            let chars = chars_of(name.as_str());
            match last_dot(&chars) {
                Some(k) => {
                    if k > 0 {
                        Some(string_of(&chars, 0, k))
                    } else {
                        Some(name)
                    }
                },
                None => Some(name),
            }
        },
    }
}

/// The extension of the file name of `path`.
pub fn file_extension(path: &str) -> (r: Option<String>)
    ensures
        match r {
            Some(s) => file_extension_of(path@) == Some(s@),
            None => file_extension_of(path@) is None,
        },
{
    match file_name(path) {
        None => None,
        Some(name) => {
            let chars = chars_of(name.as_str());
            match last_dot(&chars) {
                Some(k) => {
                    if k > 0 {
                        Some(string_of(&chars, k + 1, chars.len()))
                    } else {
                        None
                    }
                },
                None => None,
            }
        },
    }
}

// ---------------------------------------------------------------------------
// Prefixes, equality and order of paths
// ---------------------------------------------------------------------------

/// `base` is a prefix of `path`, whole components at a time (`Path::starts_with`).
pub open spec fn path_starts_with(path: Seq<char>, base: Seq<char>) -> bool {
    let p = path_components(path);
    let b = path_components(base);
    b.len() <= p.len() && p.subrange(0, b.len() as int) == b
}

/// Two paths are equal when their components are (`Path` equality).
pub open spec fn same_path(a: Seq<char>, b: Seq<char>) -> bool {
    path_components(a) == path_components(b)
}

fn same_part(a: &PathPart, b: &PathPart) -> (r: bool)
    ensures
        r == (part_view(*a) == part_view(*b)),
{
    match (a, b) {
        (PathPart::Prefix(x), PathPart::Prefix(y)) => same_text(x, y),
        (PathPart::Root, PathPart::Root) => true,
        (PathPart::Current, PathPart::Current) => true,
        (PathPart::Parent, PathPart::Parent) => true,
        (PathPart::Normal(x), PathPart::Normal(y)) => same_text(x, y),
        _ => false,
    }
}

/// Whether two strings hold the same characters.
pub fn same_text(a: &String, b: &String) -> (r: bool)
    ensures
        r == (a@ == b@),
{
    let x = chars_of(a.as_str());
    let y = chars_of(b.as_str());
    let o = compare_text(&x, &y);
    proof {
        lemma_text_total_order();
        let t = |p: Seq<char>, q: Seq<char>| text_order(p, q);
        assert(t(x@, y@) == text_order(x@, y@));
    }
    o == 0
}

/// Whether the components of `base` begin the components of `path`.
pub fn starts_with(path: &str, base: &str) -> (r: bool)
    ensures
        r == path_starts_with(path@, base@),
{
    let p = components_of(path);
    let b = components_of(base);
    let ghost pv = p@.map_values(|x: PathPart| part_view(x));
    let ghost bv = b@.map_values(|x: PathPart| part_view(x));
    if b.len() > p.len() {
        return false;
    }
    let mut i: usize = 0;
    while i < b.len()
        invariant
            b@.len() <= p@.len(),
            i <= b@.len(),
            pv == p@.map_values(|x: PathPart| part_view(x)),
            pv == path_components(path@),
            bv == path_components(base@),
            bv == b@.map_values(|x: PathPart| part_view(x)),
            forall|k: int| 0 <= k < i ==> pv[k] == bv[k],
        decreases b@.len() - i,
    {
        assert(pv.len() == p@.len() && bv.len() == b@.len());
        if !same_part(&p[i], &b[i]) {
            assert(pv[i as int] == part_view(p@[i as int]));
            assert(bv[i as int] == part_view(b@[i as int]));
            assert(pv.subrange(0, bv.len() as int)[i as int] != bv[i as int]);
            return false;
        }
        i += 1;
    }
    assert(pv.subrange(0, bv.len() as int) =~= bv);
    true
}

/// Whether two paths have the same components.
pub fn path_eq(a: &str, b: &str) -> (r: bool)
    ensures
        r == same_path(a@, b@),
{
    let x = components_of(a);
    let y = components_of(b);
    let ghost xv = x@.map_values(|p: PathPart| part_view(p));
    let ghost yv = y@.map_values(|p: PathPart| part_view(p));
    if x.len() != y.len() {
        assert(xv.len() != yv.len());
        return false;
    }
    let mut i: usize = 0;
    while i < x.len()
        invariant
            x@.len() == y@.len(),
            i <= x@.len(),
            xv == x@.map_values(|p: PathPart| part_view(p)),
            xv == path_components(a@),
            yv == path_components(b@),
            yv == y@.map_values(|p: PathPart| part_view(p)),
            forall|k: int| 0 <= k < i ==> xv[k] == yv[k],
        decreases x@.len() - i,
    {
        if !same_part(&x[i], &y[i]) {
            assert(xv[i as int] == part_view(x@[i as int]));
            assert(yv[i as int] == part_view(y@[i as int]));
            assert(xv[i as int] != yv[i as int]);
            return false;
        }
        i += 1;
    }
    assert(xv =~= yv);
    true
}

/// Three-way comparison of components: by rank, then by text.
pub open spec fn part_order(a: (int, Seq<char>), b: (int, Seq<char>)) -> int {
    if a.0 < b.0 {
        -1
    } else if a.0 > b.0 {
        1
    } else {
        text_order(a.1, b.1)
    }
}

/// Three-way comparison of paths, component by component (`Path` ordering).
pub open spec fn path_order(a: Seq<char>, b: Seq<char>) -> int {
    lex_order(path_components(a), path_components(b), |x: (int, Seq<char>), y: (int, Seq<char>)| part_order(x, y))
}

/// The component order is a total order.
pub proof fn lemma_part_total_order()
    ensures
        is_total_order(|x: (int, Seq<char>), y: (int, Seq<char>)| part_order(x, y)),
{
    lemma_text_total_order();
    let t = |a: Seq<char>, b: Seq<char>| text_order(a, b);
    let o = |x: (int, Seq<char>), y: (int, Seq<char>)| part_order(x, y);
    assert forall|x: (int, Seq<char>), y: (int, Seq<char>)|
        (#[trigger] o(x, y) == 0 <==> x == y) && o(x, y) == -o(y, x) && -1 <= o(x, y) <= 1 by {
        let _ = t(x.1, y.1);
        let _ = t(y.1, x.1);
    }
    assert forall|x: (int, Seq<char>), y: (int, Seq<char>), z: (int, Seq<char>)|
        #![trigger o(x, y), o(y, z)]
        o(x, y) < 0 && o(y, z) < 0 implies o(x, z) < 0 by {
        let _ = t(x.1, y.1);
        let _ = t(y.1, z.1);
        let _ = t(x.1, z.1);
    }
}

/// The path order is a total order on component sequences.
pub proof fn lemma_path_order_facts(a: Seq<char>, b: Seq<char>, c: Seq<char>)
    ensures
        path_order(a, b) == -path_order(b, a),
        -1 <= path_order(a, b) <= 1,
        path_order(a, b) == 0 <==> same_path(a, b),
        path_order(a, b) <= 0 && path_order(b, c) <= 0 ==> path_order(a, c) <= 0,
{
    lemma_part_total_order();
    let o = |x: (int, Seq<char>), y: (int, Seq<char>)| part_order(x, y);
    lemma_lex_total_order(o);
    let l = |x: Seq<(int, Seq<char>)>, y: Seq<(int, Seq<char>)>| lex_order(x, y, o);
    let pa = path_components(a);
    let pb = path_components(b);
    let pc = path_components(c);
    assert(path_order(a, b) == l(pa, pb));
    assert(path_order(b, a) == l(pb, pa));
    assert(path_order(b, c) == l(pb, pc));
    assert(path_order(a, c) == l(pa, pc));
    let _ = l(pa, pc);
    let _ = l(pc, pa);
    let _ = l(pc, pb);
}

fn compare_part(a: &PathPart, b: &PathPart) -> (r: i8)
    ensures
        r as int == part_order(part_view(*a), part_view(*b)),
{
    let ra = part_rank(a);
    let rb = part_rank(b);
    if ra < rb {
        -1
    } else if ra > rb {
        1
    } else {
        match (a, b) {
            (PathPart::Prefix(x), PathPart::Prefix(y)) => compare_strings(x, y),
            (PathPart::Normal(x), PathPart::Normal(y)) => compare_strings(x, y),
            _ => {
                proof {
                    lemma_text_facts(Seq::<char>::empty(), Seq::<char>::empty(), Seq::<char>::empty());
                }
                0
            },
        }
    }
}

fn part_rank(p: &PathPart) -> (r: u8)
    ensures
        r as int == part_view(*p).0,
{
    match p {
        PathPart::Prefix(_) => 0,
        PathPart::Root => 1,
        PathPart::Current => 2,
        PathPart::Parent => 3,
        PathPart::Normal(_) => 4,
    }
}

/// Three-way comparison of two strings by code point.
pub fn compare_strings(a: &String, b: &String) -> (r: i8)
    ensures
        r as int == text_order(a@, b@),
{
    let x = chars_of(a.as_str());
    let y = chars_of(b.as_str());
    compare_text(&x, &y)
}

/// Three-way comparison of two paths, component by component.
pub fn compare_paths(a: &str, b: &str) -> (r: i8)
    ensures
        r as int == path_order(a@, b@),
{
    let x = components_of(a);
    let y = components_of(b);
    let ghost o = |p: (int, Seq<char>), q: (int, Seq<char>)| part_order(p, q);
    let ghost xv = x@.map_values(|p: PathPart| part_view(p));
    let ghost yv = y@.map_values(|p: PathPart| part_view(p));
    let mut i: usize = 0;
    assert(xv.skip(0) == xv);
    assert(yv.skip(0) == yv);
    while i < x.len() && i < y.len()
        invariant
            i <= x@.len(),
            i <= y@.len(),
            xv == x@.map_values(|p: PathPart| part_view(p)),
            yv == y@.map_values(|p: PathPart| part_view(p)),
            o == (|p: (int, Seq<char>), q: (int, Seq<char>)| part_order(p, q)),
            path_order(a@, b@) == lex_order(xv.skip(i as int), yv.skip(i as int), o),
        decreases x@.len() - i,
    {
        let c = compare_part(&x[i], &y[i]);
        assert(xv.skip(i as int)[0] == part_view(x@[i as int]));
        assert(yv.skip(i as int)[0] == part_view(y@[i as int]));
        if c != 0 {
            return c;
        }
        assert(xv.skip(i as int).drop_first() == xv.skip(i + 1));
        assert(yv.skip(i as int).drop_first() == yv.skip(i + 1));
        i += 1;
    }
    if i < x.len() {
        1
    } else if i < y.len() {
        -1
    } else {
        0
    }
}

} // verus!
