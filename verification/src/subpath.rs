//! Location-relative component paths: the plainness rule for the part below
//! a location, and the choice of the location that serves a path.

use vstd::prelude::*;
use crate::loader::{LoadError, LoadFault};

verus! {

/// `s` split at every `sep`, as `str::split` does: `n` separators give
/// `n + 1` pieces, empty ones included.
pub open spec fn split_on(s: Seq<char>, sep: char) -> Seq<Seq<char>>
    decreases s.len(),
{
    if s.len() == 0 {
        seq![Seq::<char>::empty()]
    } else {
        let init = split_on(s.drop_last(), sep);
        if s.last() == sep {
            init.push(Seq::<char>::empty())
        } else {
            init.update(init.len() - 1, init.last().push(s.last()))
        }
    }
}

/// A path segment that names an entry: not empty, not `.`, not `..`.
pub open spec fn plain_segment(seg: Seq<char>) -> bool {
    seg.len() > 0 && seg != seq!['.'] && seg != seq!['.', '.']
}

/// A plain relative path: no backslash, and every `/`-separated segment is
/// plain (so no leading, trailing or doubled `/`).
pub open spec fn is_plain_subpath(s: Seq<char>) -> bool {
    &&& forall|i: int| 0 <= i < s.len() ==> s[i] != '\\'
    &&& forall|k: int|
        0 <= k < split_on(s, '/').len() ==> plain_segment(#[trigger] split_on(s, '/')[k])
}

pub open spec fn not_plain_message(path: Seq<char>) -> Seq<char> {
    "component path `"@ + path + "` is not a plain relative path within a location"@
}

pub open spec fn no_location_message(path: Seq<char>) -> Seq<char> {
    "path `"@ + path + "` is not under any location of this deployment"@
}

pub proof fn lemma_split_len(s: Seq<char>, sep: char)
    ensures
        split_on(s, sep).len() >= 1,
        (exists|i: int| 0 <= i < s.len() && s[i] == sep) ==> split_on(s, sep).len() >= 2,
    decreases s.len(),
{
    if s.len() > 0 {
        lemma_split_len(s.drop_last(), sep);
        if exists|i: int| 0 <= i < s.len() && s[i] == sep {
            if s.last() != sep {
                let i = choose|i: int| 0 <= i < s.len() && s[i] == sep;
                assert(s.drop_last()[i] == sep);
            }
        }
    }
}

fn plain_segment_exec(s: &str, from: usize, to: usize) -> (b: bool)
    requires
        from <= to <= s@.len(),
    ensures
        b == plain_segment(s@.subrange(from as int, to as int)),
{
    let ghost seg = s@.subrange(from as int, to as int);
    if from == to {
        return false;
    }
    if to - from == 1 {
        let b = s.get_char(from) != '.';
        proof {
            if !b {
                assert(seg =~= seq!['.']);
            } else {
                assert(seg[0] != seq!['.'][0]);
            }
        }
        return b;
    }
    if to - from == 2 {
        let b = !(s.get_char(from) == '.' && s.get_char(from + 1) == '.');
        proof {
            if !b {
                assert(seg =~= seq!['.', '.']);
            } else {
                if seg == seq!['.', '.'] {
                    assert(seg[0] == '.' && seg[1] == '.');
                }
            }
        }
        return b;
    }
    proof {
        assert(seg.len() != seq!['.'].len());
        assert(seg.len() != seq!['.', '.'].len());
    }
    true
}

/// Whether `subpath` is a plain relative path.
pub fn is_plain(subpath: &str) -> (b: bool)
    ensures
        b == is_plain_subpath(subpath@),
{
    let n = subpath.unicode_len();
    let ghost s = subpath@;
    let mut no_backslash = true;
    let mut segs_ok = true;
    let mut seg_start: usize = 0;
    let mut i: usize = 0;
    proof {
        assert(s.take(0) =~= Seq::<char>::empty());
        assert(s.subrange(0, 0) =~= Seq::<char>::empty());
    }
    while i < n
        invariant
            n == s.len(),
            s == subpath@,
            seg_start <= i <= n,
            split_on(s.take(i as int), '/').len() >= 1,
            split_on(s.take(i as int), '/').last() == s.subrange(seg_start as int, i as int),
            no_backslash == (forall|j: int| 0 <= j < i ==> s[j] != '\\'),
            segs_ok == (forall|k: int|
                0 <= k < split_on(s.take(i as int), '/').len() - 1 ==> plain_segment(
                    #[trigger] split_on(s.take(i as int), '/')[k],
                )),
        decreases n - i,
    {
        let c = subpath.get_char(i);
        let ghost old_split = split_on(s.take(i as int), '/');
        let ghost old_no_backslash = no_backslash;
        proof {
            assert(s.take(i + 1).drop_last() =~= s.take(i as int));
            assert(s.take(i + 1).last() == c);
        }
        if c == '/' {
            let seg_plain = plain_segment_exec(subpath, seg_start, i);
            segs_ok = segs_ok && seg_plain;
            seg_start = i + 1;
            proof {
                let new_split = split_on(s.take(i + 1), '/');
                assert(new_split == old_split.push(Seq::<char>::empty()));
                assert(s.subrange(seg_start as int, i + 1) =~= Seq::<char>::empty());
                assert(segs_ok == (forall|k: int|
                    0 <= k < new_split.len() - 1 ==> plain_segment(#[trigger] new_split[k]))) by {
                    if segs_ok {
                        assert forall|k: int| 0 <= k < new_split.len() - 1 implies plain_segment(
                            #[trigger] new_split[k],
                        ) by {
                            if k < old_split.len() - 1 {
                                assert(new_split[k] == old_split[k]);
                            } else {
                                assert(new_split[k] == old_split.last());
                            }
                        }
                    } else {
                        if (forall|k: int|
                            0 <= k < new_split.len() - 1 ==> plain_segment(#[trigger] new_split[k])) {
                            assert forall|k: int| 0 <= k < old_split.len() - 1 implies plain_segment(
                                #[trigger] old_split[k],
                            ) by {
                                assert(new_split[k] == old_split[k]);
                            }
                            assert(new_split[old_split.len() - 1] == old_split.last());
                        }
                    }
                }
            }
        } else {
            if c == '\\' {
                no_backslash = false;
            }
            proof {
                let new_split = split_on(s.take(i + 1), '/');
                assert(new_split == old_split.update(
                    old_split.len() - 1,
                    old_split.last().push(c),
                ));
                assert(s.subrange(seg_start as int, i + 1) =~= s.subrange(
                    seg_start as int,
                    i as int,
                ).push(c));
                assert forall|k: int| 0 <= k < new_split.len() - 1 implies #[trigger] new_split[k]
                    == old_split[k] by {}
                assert(segs_ok == (forall|k: int|
                    0 <= k < new_split.len() - 1 ==> plain_segment(#[trigger] new_split[k]))) by {
                    if !segs_ok {
                        let k0 = choose|k: int|
                            0 <= k < old_split.len() - 1 && !plain_segment(
                                #[trigger] old_split[k],
                            );
                        assert(new_split[k0] == old_split[k0]);
                    }
                }
            }
        }
        proof {
            if c == '\\' {
                assert(s[i as int] == '\\');
            }
            assert(no_backslash == (forall|j: int| 0 <= j < i + 1 ==> s[j] != '\\')) by {
                if old_no_backslash && c != '\\' {
                    assert forall|j: int| 0 <= j < i + 1 implies s[j] != '\\' by {
                        if j == i {
                            assert(s[j] == c);
                        }
                    }
                }
            }
        }
        i += 1;
    }
    let last_plain = plain_segment_exec(subpath, seg_start, n);
    proof {
        assert(s.take(n as int) =~= s);
        let sp = split_on(s, '/');
        if no_backslash && segs_ok && last_plain {
            assert forall|k: int| 0 <= k < sp.len() implies plain_segment(#[trigger] sp[k]) by {
                if k == sp.len() - 1 {
                    assert(sp[k] == sp.last());
                }
            }
        }
        if is_plain_subpath(s) {
            assert(plain_segment(sp[sp.len() - 1]));
            assert forall|k: int| 0 <= k < sp.len() - 1 implies plain_segment(#[trigger] sp[k]) by {}
        }
    }
    no_backslash && segs_ok && last_plain
}

/// Refuses `subpath` unless it is a plain relative path; the refusal names
/// the whole `path` it came from.
pub fn check_subpath(path: &str, subpath: &str) -> (res: Result<(), String>)
    ensures
        res is Ok <==> is_plain_subpath(subpath@),
        res matches Err(e) ==> e@ == not_plain_message(path@),
{
    if is_plain(subpath) {
        Ok(())
    } else {
        Err(
            String::from_str("component path `").concat(path).concat(
                "` is not a plain relative path within a location",
            ),
        )
    }
}


proof fn lemma_split_first_empty(s: Seq<char>, sep: char)
    requires
        s.len() >= 1,
        s[0] == sep,
    ensures
        split_on(s, sep)[0] == Seq::<char>::empty(),
    decreases s.len(),
{
    if s.len() == 1 {
        assert(s.drop_last() =~= Seq::<char>::empty());
    } else {
        let d = s.drop_last();
        lemma_split_first_empty(d, sep);
        lemma_split_len(d, sep);
        assert(d[0] == sep);
    }
}

/// An absolute path is never a plain subpath: its leading `/` yields an
/// empty first segment.
pub proof fn absolute_subpath_refused(subpath: Seq<char>)
    requires
        subpath.len() >= 1,
        subpath[0] == '/',
    ensures
        !is_plain_subpath(subpath),
{
    lemma_split_first_empty(subpath, '/');
    lemma_split_len(subpath, '/');
    assert(!plain_segment(split_on(subpath, '/')[0]));
}


/// The subpath that a location named `name` serves `path` with: empty when
/// `path` names the location itself, the rest after `name/` when `path` lies
/// below it, none otherwise.
pub open spec fn mount_subpath(path: Seq<char>, name: Seq<char>) -> Option<Seq<char>> {
    if path == name {
        Some(Seq::<char>::empty())
    } else if path.len() > name.len() && path.subrange(0, name.len() as int) == name && path[name.len() as int] == '/' {
        Some(path.subrange(name.len() as int + 1, path.len() as int))
    } else {
        None
    }
}

/// The names of the locations, as text.
pub open spec fn name_views(names: Seq<String>) -> Seq<Seq<char>> {
    names.map_values(|n: String| n@)
}

/// Location `i` serves `path`.
pub open spec fn serves(path: Seq<char>, names: Seq<Seq<char>>, i: int) -> bool {
    0 <= i < names.len() && mount_subpath(path, names[i]) is Some
}

/// Location `i` serves `path` with the longest name; among equally long
/// names the last one wins.
pub open spec fn is_best_mount(path: Seq<char>, names: Seq<Seq<char>>, i: int) -> bool {
    &&& serves(path, names, i)
    &&& forall|j: int|
        #[trigger] serves(path, names, j) ==> names[j].len() < names[i].len() || (names[j].len()
            == names[i].len() && j <= i)
}

/// Location `i` is the first one named `.`.
pub open spec fn is_first_dot(names: Seq<Seq<char>>, i: int) -> bool {
    &&& 0 <= i < names.len()
    &&& names[i] == seq!['.']
    &&& forall|j: int| 0 <= j < i ==> #[trigger] names[j] != seq!['.']
}

/// Location `i` is the one chosen for `path`, with subpath `sub`: the best
/// serving location, or, when none serves, the first `.` location, which
/// takes the whole path as a bare relative path.
pub open spec fn selected_mount(path: Seq<char>, names: Seq<Seq<char>>, i: int, sub: Seq<char>) -> bool {
    ||| is_best_mount(path, names, i) && mount_subpath(path, names[i]) == Some(sub)
    ||| (forall|j: int| !#[trigger] serves(path, names, j)) && is_first_dot(names, i) && sub == path
}

/// Some location is chosen for `path`.
pub open spec fn has_selection(path: Seq<char>, names: Seq<Seq<char>>) -> bool {
    (exists|j: int| serves(path, names, j)) || (exists|j: int|
        0 <= j < names.len() && #[trigger] names[j] == seq!['.'])
}

fn prefix_eq(path: &str, name: &str, m: usize) -> (b: bool)
    requires
        m == name@.len(),
        m <= path@.len(),
    ensures
        b == (path@.subrange(0, m as int) == name@),
{
    let mut i: usize = 0;
    while i < m
        invariant
            m == name@.len(),
            m <= path@.len(),
            i <= m,
            forall|j: int| 0 <= j < i ==> path@[j] == name@[j],
        decreases m - i,
    {
        if path.get_char(i) != name.get_char(i) {
            proof {
                assert(path@.subrange(0, m as int)[i as int] != name@[i as int]);
            }
            return false;
        }
        i += 1;
    }
    assert(path@.subrange(0, m as int) =~= name@);
    true
}

fn serves_exec(path: &str, name: &str) -> (b: bool)
    ensures
        b == (mount_subpath(path@, name@) is Some),
{
    let n = path.unicode_len();
    let m = name.unicode_len();
    if n == m {
        let eq = prefix_eq(path, name, m);
        proof {
            assert(path@.subrange(0, m as int) =~= path@);
        }
        eq
    } else if n > m {
        prefix_eq(path, name, m) && path.get_char(m) == '/'
    } else {
        false
    }
}

fn mount_subpath_exec(path: &str, name: &str) -> (sub: String)
    requires
        mount_subpath(path@, name@) is Some,
    ensures
        mount_subpath(path@, name@) == Some(sub@),
{
    let n = path.unicode_len();
    let m = name.unicode_len();
    if n == m {
        proof {
            if path@ != name@ {
                assert(!(path@.len() > name@.len()));
            }
        }
        String::new()
    } else {
        proof {
            if path@ == name@ {
                assert(path@.len() == name@.len());
            }
        }
        String::from_str(path.substring_char(m + 1, n))
    }
}

/// Chooses the location that serves `path` among the locations named
/// `names`, and the subpath within it: the longest location name of which
/// `path` is the name itself or lies below (`name/...`), the last of equals;
/// failing that, the first location named `.`, which takes `path` whole.
/// The chosen subpath must be plain; naming a location itself yields an empty
/// subpath, which is refused.
pub fn resolve(path: &str, names: &Vec<String>) -> (res: Result<(usize, String), String>)
    ensures
        match res {
            Ok((i, sub)) => selected_mount(path@, name_views(names@), i as int, sub@)
                && is_plain_subpath(sub@),
            Err(e) => (!has_selection(path@, name_views(names@)) && e@ == no_location_message(
                path@,
            )) || (exists|i: int, sub: Seq<char>|
                selected_mount(path@, name_views(names@), i, sub) && !is_plain_subpath(sub)
                    && e@ == not_plain_message(path@)),
        },
{
    let ghost v = name_views(names@);
    let count = names.len();
    let mut best: Option<(usize, usize)> = None;
    let mut i: usize = 0;
    while i < count
        invariant
            count == names@.len(),
            v == name_views(names@),
            v.len() == count,
            i <= count,
            best is None ==> forall|j: int| 0 <= j < i ==> !#[trigger] serves(path@, v, j),
            best matches Some((b, bl)) ==> {
                &&& b < i
                &&& serves(path@, v, b as int)
                &&& bl == v[b as int].len()
                &&& forall|j: int|
                    0 <= j < i && #[trigger] serves(path@, v, j) ==> v[j].len() < bl || (v[j].len()
                        == bl && j <= b)
            },
        decreases count - i,
    {
        let name = names[i].as_str();
        assert(v[i as int] == name@);
        if serves_exec(path, name) {
            let len = name.unicode_len();
            match best {
                None => {
                    best = Some((i, len));
                },
                Some((_, bl)) => {
                    if len >= bl {
                        best = Some((i, len));
                    }
                },
            }
        }
        i += 1;
    }
    match best {
        Some((b, _)) => {
            let name = names[b].as_str();
            assert(v[b as int] == name@);
            let sub = mount_subpath_exec(path, name);
            assert(is_best_mount(path@, v, b as int));
            match check_subpath(path, sub.as_str()) {
                Ok(()) => Ok((b, sub)),
                Err(e) => {
                    assert(selected_mount(path@, v, b as int, sub@));
                    Err(e)
                },
            }
        },
        None => {
            let mut k: usize = 0;
            while k < count
                invariant
                    count == names@.len(),
                    v == name_views(names@),
                    v.len() == count,
                    k <= count,
                    forall|j: int| 0 <= j < count ==> !#[trigger] serves(path@, v, j),
                    forall|j: int| 0 <= j < k ==> #[trigger] v[j] != seq!['.'],
                decreases count - k,
            {
                let name = names[k].as_str();
                assert(v[k as int] == name@);
                if name.unicode_len() == 1 && name.get_char(0) == '.' {
                    assert(v[k as int] =~= seq!['.']);
                    let sub = String::from_str(path);
                    assert(is_first_dot(v, k as int));
                    assert(selected_mount(path@, v, k as int, sub@));
                    return match check_subpath(path, path) {
                        Ok(()) => Ok((k, sub)),
                        Err(e) => Err(e),
                    };
                }
                proof {
                    if v[k as int] == seq!['.'] {
                        assert(name@.len() == 1 && name@[0] == '.');
                    }
                }
                k += 1;
            }
            proof {
                assert(!has_selection(path@, v));
            }
            Err(
                String::from_str("path `").concat(path).concat(
                    "` is not under any location of this deployment",
                ),
            )
        },
    }
}


/// The choice of location is a function of the path and the names: at most
/// one location and subpath are chosen.
pub proof fn selection_unique(
    path: Seq<char>,
    names: Seq<Seq<char>>,
    i: int,
    sub: Seq<char>,
    j: int,
    other: Seq<char>,
)
    requires
        selected_mount(path, names, i, sub),
        selected_mount(path, names, j, other),
    ensures
        i == j,
        sub == other,
{
    if is_best_mount(path, names, i) && mount_subpath(path, names[i]) == Some(sub) {
        if is_best_mount(path, names, j) && mount_subpath(path, names[j]) == Some(other) {
            assert(serves(path, names, i));
            assert(serves(path, names, j));
        } else {
            assert(serves(path, names, i));
        }
    } else {
        if is_best_mount(path, names, j) && mount_subpath(path, names[j]) == Some(other) {
            assert(serves(path, names, j));
        }
    }
}

/// The chosen location and subpath give back the path: `name/sub` below a
/// serving location, the name itself with an empty subpath, or the whole path
/// under a `.` location.
pub proof fn selection_rebuilds_path(path: Seq<char>, names: Seq<Seq<char>>, i: int, sub: Seq<char>)
    requires
        selected_mount(path, names, i, sub),
    ensures
        path == names[i] + seq!['/'] + sub || (path == names[i] && sub.len() == 0) || (
        names[i] == seq!['.'] && sub == path),
{
    if is_best_mount(path, names, i) && mount_subpath(path, names[i]) == Some(sub) {
        if path != names[i] {
            assert(path =~= names[i] + seq!['/'] + sub);
        }
    }
}

/// A path that names a location itself resolves to an empty subpath, which
/// is refused; so is every path whose chosen subpath is not plain.
pub proof fn naming_a_location_is_refused(path: Seq<char>, names: Seq<Seq<char>>, i: int)
    requires
        0 <= i < names.len(),
        names[i] == path,
    ensures
        exists|b: int| selected_mount(path, names, b, Seq::<char>::empty()),
        !is_plain_subpath(Seq::<char>::empty()),
{
    assert(serves(path, names, i));
    // The longest serving name, the last of equals.
    let b = choose_best(path, names, i);
    assert(names[b].len() <= path.len());
    assert(names[b].len() >= names[i].len());
    assert(names[b] == path);
    assert(selected_mount(path, names, b, Seq::<char>::empty()));
    assert(split_on(Seq::<char>::empty(), '/')[0] == Seq::<char>::empty());
}

/// Some serving location has the longest name, the last of equals.
proof fn choose_best(path: Seq<char>, names: Seq<Seq<char>>, i: int) -> (b: int)
    requires
        serves(path, names, i),
    ensures
        is_best_mount(path, names, b),
    decreases names.len(),
{
    let n = names.len();
    if n == 1 {
        assert forall|j: int| #[trigger] serves(path, names, j) implies names[j].len() < names[0].len()
            || (names[j].len() == names[0].len() && j <= 0) by {}
        0
    } else {
        let init = names.drop_last();
        let last = n - 1;
        if i < last {
            assert(serves(path, init, i));
            let b0 = choose_best(path, init, i);
            assert(serves(path, names, b0));
            if serves(path, names, last) && names[last].len() >= names[b0].len() {
                assert forall|j: int| #[trigger] serves(path, names, j) implies names[j].len()
                    < names[last].len() || (names[j].len() == names[last].len() && j <= last) by {
                    if j < last {
                        assert(serves(path, init, j));
                    }
                }
                last
            } else {
                assert forall|j: int| #[trigger] serves(path, names, j) implies names[j].len()
                    < names[b0].len() || (names[j].len() == names[b0].len() && j <= b0) by {
                    if j < last {
                        assert(serves(path, init, j));
                    }
                }
                b0
            }
        } else {
            if exists|j: int| serves(path, init, j) {
                let j0 = choose|j: int| serves(path, init, j);
                let b0 = choose_best(path, init, j0);
                assert(serves(path, names, b0));
                if names[last].len() >= names[b0].len() {
                    assert forall|j: int| #[trigger] serves(path, names, j) implies names[j].len()
                        < names[last].len() || (names[j].len() == names[last].len() && j <= last) by {
                        if j < last {
                            assert(serves(path, init, j));
                        }
                    }
                    last
                } else {
                    assert forall|j: int| #[trigger] serves(path, names, j) implies names[j].len()
                        < names[b0].len() || (names[j].len() == names[b0].len() && j <= b0) by {
                        if j < last {
                            assert(serves(path, init, j));
                        }
                    }
                    b0
                }
            } else {
                assert forall|j: int| #[trigger] serves(path, names, j) implies names[j].len()
                    < names[last].len() || (names[j].len() == names[last].len() && j <= last) by {
                    if j < last {
                        assert(serves(path, init, j));
                    }
                }
                last
            }
        }
    }
}


/// The path acquirer's answer before any read: the location and subpath that
/// serve `path`, or a refusal for a path that no location serves plainly
/// (never an unavailability, which only a failed read may report).
pub fn locate(path: &str, names: &Vec<String>) -> (res: Result<(usize, String), LoadError>)
    ensures
        match res {
            Ok((i, sub)) => selected_mount(path@, name_views(names@), i as int, sub@)
                && is_plain_subpath(sub@),
            Err(e) => (!has_selection(path@, name_views(names@)) && e@ == LoadFault::Refused(
                no_location_message(path@),
            )) || (exists|i: int, sub: Seq<char>|
                selected_mount(path@, name_views(names@), i, sub) && !is_plain_subpath(sub)
                    && e@ == LoadFault::Refused(not_plain_message(path@))),
        },
{
    match resolve(path, names) {
        Ok(found) => Ok(found),
        Err(e) => Err(LoadError::Refused(e)),
    }
}

/// A location serves every path below it, at any depth: `name/sub` is
/// served by the location `name` with subpath `sub`.
pub proof fn location_serves_paths_below(name: Seq<char>, sub: Seq<char>)
    ensures
        mount_subpath(name + seq!['/'] + sub, name) == Some(sub),
{
    let path = name + seq!['/'] + sub;
    assert(path.len() > name.len());
    assert(path.subrange(0, name.len() as int) =~= name);
    assert(path[name.len() as int] == '/');
    assert(path.subrange(name.len() as int + 1, path.len() as int) =~= sub);
}

/// A path below a single location, with a plain subpath, resolves to that
/// location and subpath.
pub proof fn single_location_resolves_below(name: Seq<char>, sub: Seq<char>)
    requires
        is_plain_subpath(sub),
    ensures
        selected_mount(name + seq!['/'] + sub, seq![name], 0, sub),
{
    location_serves_paths_below(name, sub);
    let path = name + seq!['/'] + sub;
    let names = seq![name];
    assert(serves(path, names, 0));
    assert forall|j: int| #[trigger] serves(path, names, j) implies names[j].len() < names[0].len()
        || (names[j].len() == names[0].len() && j <= 0) by {}
}

} // verus!
