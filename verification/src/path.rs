//! Unix paths as text.

use vstd::prelude::*;
use vstd::string::*;

use crate::text::{any_is, from_chars, split, str_eq, to_chars};
#[allow(unused_imports)]
use crate::text::{first_index, first_index_bounds, opt_view, split_on, views};

verus! {

/// The last segment that is neither empty nor `.`.
pub open spec fn last_segment(segments: Seq<Seq<char>>) -> Option<Seq<char>>
    decreases segments.len(),
{
    if segments.len() == 0 {
        None
    } else if segments.last() != ""@ && segments.last() != "."@ {
        Some(segments.last())
    } else {
        last_segment(segments.drop_last())
    }
}

/// The final component of `path`, unless there is none or it is `..`.
pub open spec fn file_name_of(path: Seq<char>) -> Option<Seq<char>> {
    match last_segment(split_on(path, '/')) {
        Some(s) => if s == ".."@ { None } else { Some(s) },
        None => None,
    }
}

/// The last position of `c` in `s`, or -1.
pub open spec fn last_index(s: Seq<char>, c: char) -> int
    decreases s.len(),
{
    if s.len() == 0 {
        -1
    } else if s.last() == c {
        s.len() - 1
    } else {
        last_index(s.drop_last(), c)
    }
}

/// What follows the last dot of the final component of `path`, unless that dot
/// leads the component or there is none.
pub open spec fn extension_of(path: Seq<char>) -> Option<Seq<char>> {
    match file_name_of(path) {
        Some(f) => if last_index(f, '.') >= 1 {
            Some(f.skip(last_index(f, '.') + 1))
        } else {
            None
        },
        None => None,
    }
}

/// `path` begins at the root.
pub open spec fn is_absolute_path(path: Seq<char>) -> bool {
    path.len() > 0 && path[0] == '/'
}

/// One of the segments of `path` is `..`.
pub open spec fn climbs(path: Seq<char>) -> bool {
    split_on(path, '/').contains(".."@)
}

/// The path of `name` within the directory `dir`.
pub open spec fn joined(dir: Seq<char>, name: Seq<char>) -> Seq<char> {
    if is_absolute_path(name) {
        name
    } else if dir.len() == 0 || dir.last() == '/' {
        dir + name
    } else {
        dir + "/"@ + name
    }
}

/// Whether `path` begins at the root.
pub fn is_absolute(path: &str) -> (r: bool)
    ensures
        r == is_absolute_path(path@),
{
    let v = to_chars(path);
    v.len() > 0 && v[0] == '/'
}

/// Whether one of the segments of `path` is `..`.
pub fn has_parent_segment(path: &str) -> (r: bool)
    ensures
        r == climbs(path@),
{
    any_is(&split(path, '/'), "..")
}

/// The final component of `path`, unless there is none or it is `..`.
pub fn file_name(path: &str) -> (r: Option<String>)
    ensures
        opt_view(r) == file_name_of(path@),
{
    let segments = split(path, '/');
    let mut n: usize = segments.len();
    proof {
        assert(views(segments@).take(n as int) == views(segments@));
    }
    while n > 0
        invariant
            n <= segments@.len(),
            views(segments@) == split_on(path@, '/'),
            last_segment(views(segments@).take(n as int)) == last_segment(split_on(path@, '/')),
        decreases n,
    {
        let last = segments[n - 1].as_str();
        proof {
            let head = views(segments@).take(n as int);
            assert(head.last() == last@);
            assert(head.drop_last() == views(segments@).take(n - 1));
        }
        if !str_eq(last, "") && !str_eq(last, ".") {
            return if str_eq(last, "..") { None } else { Some(last.to_owned()) };
        }
        n -= 1;
    }
    None
}

/// What follows the last dot of the final component of `path`, unless that dot
/// leads the component or there is none.
pub fn extension(path: &str) -> (r: Option<String>)
    ensures
        opt_view(r) == extension_of(path@),
{
    let name = match file_name(path) {
        Some(f) => f,
        None => { return None; },
    };
    let v = to_chars(name.as_str());
    let mut n: usize = v.len();
    proof {
        assert(v@.take(n as int) == v@);
    }
    while n > 0
        invariant
            n <= v@.len(),
            v@ == name@,
            file_name_of(path@) == Some(name@),
            last_index(v@.take(n as int), '.') == last_index(name@, '.'),
        decreases n,
    {
        proof {
            assert(v@.take(n as int).last() == v@[n - 1]);
            assert(v@.take(n as int).drop_last() == v@.take(n - 1));
        }
        if v[n - 1] == '.' {
            if n == 1 {
                return None;
            }
            proof {
                assert(v@.subrange(n as int, v@.len() as int) == name@.skip(n as int));
            }
            return Some(from_chars(&v, n, v.len()));
        }
        n -= 1;
    }
    None
}

/// The path of `name` within the directory `dir`.
pub fn join(dir: &str, name: &str) -> (r: String)
    ensures
        r@ == joined(dir@, name@),
{
    if is_absolute(name) {
        return name.to_owned();
    }
    let d = to_chars(dir);
    if d.len() == 0 || d[d.len() - 1] == '/' {
        dir.to_owned().concat(name)
    } else {
        dir.to_owned().concat("/").concat(name)
    }
}

/// The segments that name something.
pub open spec fn naming_segments(segments: Seq<Seq<char>>) -> Seq<Seq<char>>
    decreases segments.len(),
{
    if segments.len() == 0 {
        Seq::empty()
    } else if segments.last() != ""@ && segments.last() != "."@ {
        naming_segments(segments.drop_last()).push(segments.last())
    } else {
        naming_segments(segments.drop_last())
    }
}

/// Two paths are the same, however many slashes and dots they are written with: both
/// begin at the root or neither does, and the same segments follow. A dot counts only
/// where it leads.
pub open spec fn same_paths(a: Seq<char>, b: Seq<char>) -> bool {
    let x = split_on(a, '/');
    let y = split_on(b, '/');
    &&& is_absolute_path(a) == is_absolute_path(b)
    &&& (x[0] == "."@) == (y[0] == "."@)
    &&& naming_segments(x) == naming_segments(y)
}

fn name_segments(segments: &Vec<String>) -> (r: Vec<String>)
    ensures
        views(r@) == naming_segments(views(segments@)),
{
    let mut r: Vec<String> = Vec::new();
    let mut i: usize = 0;
    let ghost all = views(segments@);
    proof {
        assert(views(r@) =~= Seq::empty());
        assert(all.take(0) =~= Seq::empty());
    }
    while i < segments.len()
        invariant
            i <= segments@.len(),
            all == views(segments@),
            views(r@) == naming_segments(all.take(i as int)),
        decreases segments.len() - i,
    {
        let ghost before = r@;
        proof {
            assert(all.take(i + 1).drop_last() =~= all.take(i as int));
            assert(all.take(i + 1).last() == segments@[i as int]@);
        }
        if !str_eq(segments[i].as_str(), "") && !str_eq(segments[i].as_str(), ".") {
            r.push(segments[i].clone());
            proof {
                assert(views(r@) =~= views(before).push(segments@[i as int]@));
            }
        }
        i += 1;
    }
    proof {
        assert(all.take(i as int) =~= all);
    }
    r
}

fn same_strings(a: &Vec<String>, b: &Vec<String>) -> (r: bool)
    ensures
        r == (views(a@) == views(b@)),
{
    if a.len() != b.len() {
        proof {
            assert(views(a@).len() != views(b@).len());
        }
        return false;
    }
    let mut i: usize = 0;
    while i < a.len()
        invariant
            i <= a@.len() == b@.len(),
            forall|k: int| 0 <= k < i ==> a@[k]@ == b@[k]@,
        decreases a.len() - i,
    {
        if !str_eq(a[i].as_str(), b[i].as_str()) {
            proof {
                assert(views(a@)[i as int] != views(b@)[i as int]);
            }
            return false;
        }
        i += 1;
    }
    proof {
        assert(views(a@) =~= views(b@));
    }
    true
}

/// Whether two paths are the same, however many slashes and dots they are written
/// with.
pub fn same_path(a: &str, b: &str) -> (r: bool)
    ensures
        r == same_paths(a@, b@),
{
    let x = split(a, '/');
    let y = split(b, '/');
    proof {
        assert(split_on(a@, '/').len() > 0 && split_on(b@, '/').len() > 0);
        assert(views(x@)[0] == x@[0]@);
        assert(views(y@)[0] == y@[0]@);
    }
    let dots = str_eq(x[0].as_str(), ".") == str_eq(y[0].as_str(), ".");
    is_absolute(a) == is_absolute(b) && dots && same_strings(&name_segments(&x), &name_segments(&y))
}

/// Being the same path is an equivalence.
pub proof fn sameness_of_paths_is_an_equivalence(a: Seq<char>, b: Seq<char>, c: Seq<char>)
    ensures
        same_paths(a, a),
        same_paths(a, b) ==> same_paths(b, a),
        same_paths(a, b) && same_paths(b, c) ==> same_paths(a, c),
{
}

/// The segments of a path that name something.
pub open spec fn segments_of(path: Seq<char>) -> Seq<Seq<char>> {
    naming_segments(split_on(path, '/'))
}

/// The segments of a path that name something.
pub fn naming_parts(path: &str) -> (r: Vec<String>)
    ensures
        views(r@) == segments_of(path@),
{
    name_segments(&split(path, '/'))
}

/// `path` without the slashes that lead it.
pub open spec fn unrooted(path: Seq<char>) -> Seq<char>
    decreases path.len(),
{
    if path.len() > 0 && path[0] == '/' {
        unrooted(path.skip(1))
    } else {
        path
    }
}

/// A path without the slashes that lead it.
pub fn without_root(path: &str) -> (r: String)
    ensures
        r@ == unrooted(path@),
{
    let v = to_chars(path);
    let mut i: usize = 0;
    proof {
        assert(v@.skip(0) == path@);
    }
    while i < v.len() && v[i] == '/'
        invariant
            i <= v@.len(),
            unrooted(v@.skip(i as int)) == unrooted(path@),
        decreases v.len() - i,
    {
        proof {
            assert(v@.skip(i as int).skip(1) == v@.skip(i + 1));
            assert(v@.skip(i as int)[0] == v@[i as int]);
        }
        i += 1;
    }
    proof {
        if i < v@.len() {
            assert(v@.skip(i as int)[0] == v@[i as int]);
        }
        assert(v@.subrange(i as int, v@.len() as int) == v@.skip(i as int));
    }
    from_chars(&v, i, v.len())
}

/// The pieces between separators hold none.
pub proof fn pieces_hold_no_separator(s: Seq<char>, sep: char, i: int)
    requires
        0 <= i < split_on(s, sep).len(),
    ensures
        !split_on(s, sep)[i].contains(sep),
    decreases s.len(),
{
    first_index_bounds(s, sep);
    let k = first_index(s, sep);
    if k < s.len() {
        if i > 0 {
            pieces_hold_no_separator(s.skip(k + 1), sep, i - 1);
        }
    }
}

proof fn naming_segments_come_from_segments(segments: Seq<Seq<char>>, i: int)
    requires
        0 <= i < naming_segments(segments).len(),
    ensures
        exists|k: int| 0 <= k < segments.len() && #[trigger] segments[k] == naming_segments(segments)[i],
        naming_segments(segments)[i] != ""@,
        naming_segments(segments)[i] != "."@,
    decreases segments.len(),
{
    let rest = segments.drop_last();
    if i < naming_segments(rest).len() {
        naming_segments_come_from_segments(rest, i);
        let k = choose|k: int| 0 <= k < rest.len() && #[trigger] rest[k] == naming_segments(rest)[i];
        assert(segments[k] == rest[k]);
    } else {
        assert(segments[segments.len() - 1] == segments.last());
    }
}

/// A segment that names something is neither empty nor a dot, and holds no slash.
pub proof fn naming_segments_are_plain(path: Seq<char>, i: int)
    requires
        0 <= i < segments_of(path).len(),
    ensures
        segments_of(path)[i].len() > 0,
        segments_of(path)[i] != "."@,
        !segments_of(path)[i].contains('/'),
{
    let pieces = split_on(path, '/');
    naming_segments_come_from_segments(pieces, i);
    let k = choose|k: int| 0 <= k < pieces.len() && #[trigger] pieces[k] == segments_of(path)[i];
    pieces_hold_no_separator(path, '/', k);
    reveal_strlit("");
    if segments_of(path)[i].len() == 0 {
        assert(segments_of(path)[i] =~= ""@);
    }
}

/// Splitting at the end: what follows the last separator is a piece of its own.
proof fn split_at_the_end(s: Seq<char>, t: Seq<char>, sep: char)
    requires
        !t.contains(sep),
    ensures
        split_on(s + seq![sep] + t, sep) == split_on(s, sep).push(t),
    decreases s.len(),
{
    let whole = s + seq![sep] + t;
    first_index_bounds(s, sep);
    let k = first_index(s, sep);
    if k < s.len() {
        assert(whole[k] == s[k]);
        assert forall|j: int| 0 <= j < k implies whole[j] != sep by {
            assert(whole[j] == s[j]);
        }
        crate::text::first_index_is(whole, sep, k);
        assert(whole.skip(k + 1) =~= s.skip(k + 1) + seq![sep] + t);
        assert(whole.take(k) =~= s.take(k));
        split_at_the_end(s.skip(k + 1), t, sep);
        assert(split_on(whole, sep) =~= split_on(s, sep).push(t));
    } else {
        assert(whole[s.len() as int] == sep);
        assert forall|j: int| 0 <= j < s.len() implies whole[j] != sep by {
            assert(whole[j] == s[j]);
        }
        crate::text::first_index_is(whole, sep, s.len() as int);
        assert(whole.take(s.len() as int) =~= s);
        assert(whole.skip(s.len() as int + 1) =~= t);
        assert forall|j: int| 0 <= j < t.len() implies t[j] != sep by {
            assert(t.contains(t[j]));
        }
        crate::text::first_index_is(t, sep, t.len() as int);
        assert(split_on(t, sep) =~= seq![t]);
        assert(split_on(s, sep) =~= seq![s]);
        assert(split_on(whole, sep) =~= seq![s].push(t));
    }
}

/// Joining a name to a directory adds one segment, however the directory is written.
pub proof fn joining_adds_one_segment(directory: Seq<char>, name: Seq<char>)
    requires
        name.len() > 0,
        !name.contains('/'),
        name != "."@,
    ensures
        segments_of(joined(directory, name)) == segments_of(directory).push(name),
        is_absolute_path(joined(directory, name)) == is_absolute_path(directory),
{
    reveal_strlit("/");
    reveal_strlit("");
    assert("/"@ =~= seq!['/']);
    assert(name[0] != '/') by {
        if name[0] == '/' {
            assert(name.contains(name[0]));
        }
    }
    assert(name != ""@) by {
        assert(""@.len() == 0);
    }
    if directory.len() == 0 {
        assert(directory + name =~= name);
        assert forall|j: int| 0 <= j < name.len() implies name[j] != '/' by {
            assert(name.contains(name[j]));
        }
        crate::text::first_index_is(name, '/', name.len() as int);
        assert(split_on(name, '/') =~= seq![name]);
        assert(split_on(directory, '/') =~= seq![directory]);
        assert(directory =~= ""@);
        assert(seq![name].drop_last() =~= Seq::empty());
        assert(seq![directory].drop_last() =~= Seq::empty());
    } else if directory.last() == '/' {
        let d = directory.drop_last();
        assert(directory =~= d + seq!['/'] + Seq::<char>::empty());
        split_at_the_end(d, Seq::empty(), '/');
        split_at_the_end(d, name, '/');
        assert(directory + name =~= d + seq!['/'] + name);
        let x = split_on(directory, '/');
        let y = split_on(directory + name, '/');
        assert(""@ =~= Seq::<char>::empty());
        assert(x == split_on(d, '/').push(""@));
        assert(y == split_on(d, '/').push(name));
        assert(y.drop_last() =~= split_on(d, '/'));
        assert(x.drop_last() =~= split_on(d, '/'));
        assert((directory + name)[0] == directory[0]);
    } else {
        split_at_the_end(directory, name, '/');
        let x = split_on(directory, '/');
        let y = split_on(directory + "/"@ + name, '/');
        assert(y == x.push(name));
        assert(y.drop_last() =~= x);
        assert((directory + "/"@ + name)[0] == directory[0]);
    }
}

proof fn splitting_ends_with_the_last_segment(dir: Seq<char>, name: Seq<char>)
    requires
        !name.contains('/'),
    ensures
        split_on(dir + "/"@ + name, '/') == split_on(dir, '/').push(name),
    decreases dir.len(),
{
    reveal_strlit("/");
    let all = dir + "/"@ + name;
    let i = first_index(dir, '/');
    crate::text::first_index_bounds(dir, '/');
    if i < dir.len() {
        assert forall|k: int| 0 <= k < i implies all[k] != '/' by {
            assert(all[k] == dir[k]);
        }
        crate::text::first_index_is(all, '/', i);
        assert(all.take(i) =~= dir.take(i));
        assert(all.skip(i + 1) =~= dir.skip(i + 1) + "/"@ + name);
        splitting_ends_with_the_last_segment(dir.skip(i + 1), name);
        assert(split_on(all, '/') =~= split_on(dir, '/').push(name));
    } else {
        assert forall|k: int| 0 <= k < dir.len() implies all[k] != '/' by {
            assert(all[k] == dir[k]);
        }
        crate::text::first_index_is(all, '/', dir.len() as int);
        assert(all.take(dir.len() as int) =~= dir);
        assert(all.skip(dir.len() as int + 1) =~= name);
        assert forall|k: int| 0 <= k < name.len() implies name[k] != '/' by {
            assert(name.contains(name[k]));
        }
        crate::text::first_index_is(name, '/', name.len() as int);
        assert(split_on(name, '/') =~= seq![name]);
        assert(split_on(dir, '/') =~= seq![dir]);
        assert(split_on(all, '/') =~= split_on(dir, '/').push(name));
    }
}

/// The file name of a path is what stands behind its last slash, where that names
/// something; slashes behind it do not count.
pub proof fn file_names_stand_behind_the_last_slash(dir: Seq<char>, name: Seq<char>)
    requires
        !name.contains('/'),
        name.len() > 0,
        name != "."@,
    ensures
        name != ".."@ ==> file_name_of(dir + "/"@ + name) == Some(name),
        name != ".."@ ==> file_name_of(dir + "/"@ + name + "/"@) == Some(name),
        name == ".."@ ==> file_name_of(dir + "/"@ + name) is None,
{
    reveal_strlit("");
    splitting_ends_with_the_last_segment(dir, name);
    let s = split_on(dir + "/"@ + name, '/');
    assert(s.last() == name);
    let empty = Seq::<char>::empty();
    splitting_ends_with_the_last_segment(dir + "/"@ + name, empty);
    assert(dir + "/"@ + name + "/"@ + empty =~= dir + "/"@ + name + "/"@);
    let t = s.push(empty);
    assert(""@ =~= empty);
    assert(t.drop_last() =~= s);
    assert(last_segment(t) == last_segment(s));
}

/// A path's extension is what stands behind the last dot of its file name; a dot that
/// leads the name does not count.
pub proof fn extensions_stand_behind_the_last_dot(
    dir: Seq<char>,
    stem: Seq<char>,
    ext: Seq<char>,
)
    requires
        stem.len() > 0,
        !stem.contains('/'),
        !ext.contains('/'),
        !ext.contains('.'),
        stem + "."@ + ext != ".."@,
    ensures
        extension_of(dir + "/"@ + (stem + "."@ + ext)) == Some(ext),
        !stem.contains('.') && stem != "."@ ==> extension_of(dir + "/"@ + stem) is None,
{
    reveal_strlit(".");
    reveal_strlit("..");
    let name = stem + "."@ + ext;
    assert(!name.contains('/'));
    assert(name.len() >= 2 && "."@.len() == 1);
    file_names_stand_behind_the_last_slash(dir, name);
    last_index_is(name, '.', stem.len() as int);
    assert(name.skip(stem.len() as int + 1) =~= ext);
    if !stem.contains('.') && stem != "."@ {
        assert(stem != ".."@) by {
            if stem == ".."@ {
                assert(stem[0] == '.');
            }
        }
        file_names_stand_behind_the_last_slash(dir, stem);
        last_index_is(stem, '.', -1);
    }
}

proof fn last_index_is(s: Seq<char>, c: char, i: int)
    requires
        -1 <= i < s.len(),
        i >= 0 ==> s[i] == c,
        forall|k: int| i < k < s.len() ==> s[k] != c,
    ensures
        last_index(s, c) == i,
    decreases s.len(),
{
    if i < s.len() - 1 {
        last_index_is(s.drop_last(), c, i);
    }
}

/// What is joined to a directory stands in it, one slash behind it; a path from the root
/// stands for itself.
pub proof fn joined_paths_stand_in_their_directory(dir: Seq<char>, name: Seq<char>)
    ensures
        is_absolute_path(name) ==> joined(dir, name) == name,
        !is_absolute_path(name) && dir.len() > 0 && dir.last() != '/' ==> joined(dir, name) == dir
            + "/"@ + name,
        !is_absolute_path(name) && dir.len() > 0 && dir.last() == '/' ==> joined(dir, name) == dir
            + name,
        !is_absolute_path(name) && name.len() > 0 && !name.contains('/') && name != "."@ && name
            != ".."@ && dir.len() > 0 && dir.last() != '/' ==> file_name_of(joined(dir, name))
            == Some(name),
{
    if !is_absolute_path(name) && name.len() > 0 && !name.contains('/') && name != "."@ && name
        != ".."@ && dir.len() > 0 && dir.last() != '/' {
        file_names_stand_behind_the_last_slash(dir, name);
    }
}

/// Paths that are the same name the same things in the same order, from the same beginning;
/// two entries of one directory are never the same path, and a slash at the end makes no
/// difference.
pub proof fn same_paths_name_the_same(
    a: Seq<char>,
    b: Seq<char>,
    x: Seq<char>,
    y: Seq<char>,
)
    requires
        x.len() > 0 && !x.contains('/') && x != "."@,
        y.len() > 0 && !y.contains('/') && y != "."@,
    ensures
        same_paths(a, b) ==> segments_of(a) == segments_of(b) && (is_absolute_path(a)
            <==> is_absolute_path(b)),
        same_paths(joined(a, x), joined(a, y)) ==> x == y,
        a.len() > 0 ==> same_paths(a, a + "/"@),
{
    joining_adds_one_segment(a, x);
    joining_adds_one_segment(a, y);
    let s = segments_of(a);
    assert(s.push(x).last() == x && s.push(y).last() == y);
    if a.len() > 0 {
        reveal_strlit("/");
        reveal_strlit("");
        split_at_the_end(a, Seq::empty(), '/');
        assert(a + seq!['/'] + Seq::empty() =~= a + "/"@);
        let pieces = split_on(a, '/');
        let longer = split_on(a + "/"@, '/');
        assert(longer == pieces.push(Seq::empty()));
        assert(longer.drop_last() =~= pieces);
        assert(longer.last() =~= ""@);
        assert(pieces.len() > 0);
        assert(longer[0] == pieces[0]);
    }
}

} // verus!
