//! The deployment's declared plugin locations, and which acquirer slots they
//! fill.

use vstd::prelude::*;
use crate::loader::Slots;

verus! {

/// A declared plugin location.
#[derive(Clone, Debug)]
pub enum Location {
    /// A named directory of component files.
    Path { name: String, path: String },
    /// A package registry endpoint.
    Registry { registry: String },
}

/// A `Location` as text.
pub enum LocationView {
    Path { name: Seq<char>, path: Seq<char> },
    Registry { registry: Seq<char> },
}

impl View for Location {
    type V = LocationView;

    open spec fn view(&self) -> LocationView {
        match self {
            Location::Path { name, path } => LocationView::Path { name: name@, path: path@ },
            Location::Registry { registry } => LocationView::Registry { registry: registry@ },
        }
    }
}

/// The path entries among `locs`, in declaration order.
pub open spec fn path_entries(locs: Seq<LocationView>) -> Seq<(Seq<char>, Seq<char>)>
    decreases locs.len(),
{
    if locs.len() == 0 {
        seq![]
    } else {
        let init = path_entries(locs.drop_last());
        match locs.last() {
            LocationView::Path { name, path } => init.push((name, path)),
            LocationView::Registry { .. } => init,
        }
    }
}

/// The first registry entry among `locs`, if any.
pub open spec fn first_registry(locs: Seq<LocationView>) -> Option<Seq<char>>
    decreases locs.len(),
{
    if locs.len() == 0 {
        None
    } else {
        match locs[0] {
            LocationView::Registry { registry } => Some(registry),
            LocationView::Path { .. } => first_registry(locs.drop_first()),
        }
    }
}

/// What the declared locations install: the path entries, folded in order
/// into one path acquirer, and the registry of the first registry entry.
pub struct Declared {
    pub paths: Vec<(String, String)>,
    pub registry: Option<String>,
}

pub open spec fn pair_views(v: Seq<(String, String)>) -> Seq<(Seq<char>, Seq<char>)> {
    v.map_values(|p: (String, String)| (p.0@, p.1@))
}

pub open spec fn location_views(v: Seq<Location>) -> Seq<LocationView> {
    v.map_values(|l: Location| l@)
}

impl Declared {
    /// The acquirer slots filled: the path slot when any path entry is
    /// declared, the registry slot when a registry entry is.
    pub fn slots(&self) -> (s: Slots)
        ensures
            s.path == (self.paths@.len() > 0),
            s.registry == (self.registry is Some),
    {
        Slots { path: self.paths.len() > 0, registry: self.registry.is_some() }
    }
}

proof fn lemma_first_registry_skip(locs: Seq<LocationView>, i: int)
    requires
        0 <= i <= locs.len(),
        forall|j: int| 0 <= j < i ==> #[trigger] locs[j] is Path,
    ensures
        first_registry(locs) == first_registry(locs.subrange(i, locs.len() as int)),
    decreases i,
{
    if i > 0 {
        assert(locs[0] is Path);
        let rest = locs.drop_first();
        assert forall|j: int| 0 <= j < i - 1 implies #[trigger] rest[j] is Path by {
            assert(rest[j] == locs[j + 1]);
        }
        lemma_first_registry_skip(rest, i - 1);
        assert(rest.subrange(i - 1, rest.len() as int) =~= locs.subrange(i, locs.len() as int));
    } else {
        assert(locs.subrange(0, locs.len() as int) =~= locs);
    }
}

/// Sorts the declared locations into the acquirers they install. A
/// deployment declaring no locations installs nothing.
pub fn declared_slots(locations: &Vec<Location>) -> (res: Option<Declared>)
    ensures
        res is None <==> locations@.len() == 0,
        res matches Some(d) ==> pair_views(d.paths@) == path_entries(location_views(locations@))
            && opt_str_view(d.registry) == first_registry(location_views(locations@)),
{
    let n = locations.len();
    if n == 0 {
        return None;
    }
    let ghost locs = location_views(locations@);
    let mut paths: Vec<(String, String)> = Vec::new();
    let mut registry: Option<String> = None;
    let mut i: usize = 0;
    while i < n
        invariant
            n == locations@.len(),
            locs == location_views(locations@),
            i <= n,
            pair_views(paths@) == path_entries(locs.take(i as int)),
            registry is None ==> forall|j: int| 0 <= j < i ==> #[trigger] locs[j] is Path,
            registry is Some ==> opt_str_view(registry) == first_registry(locs),
        decreases n - i,
    {
        proof {
            assert(locs.take(i + 1).drop_last() =~= locs.take(i as int));
        }
        match &locations[i] {
            Location::Path { name, path } => {
                let ghost before = paths@;
                paths.push((name.clone(), path.clone()));
                proof {
                    assert(pair_views(paths@) =~= pair_views(before).push((name@, path@)));
                }
            },
            Location::Registry { registry: r } => {
                if registry.is_none() {
                    proof {
                        lemma_first_registry_skip(locs, i as int);
                        let rest = locs.subrange(i as int, n as int);
                        assert(rest[0] == locs[i as int]);
                    }
                    registry = Some(r.clone());
                }
            },
        }
        i += 1;
    }
    proof {
        assert(locs.take(n as int) =~= locs);
        if registry is None {
            lemma_first_registry_skip(locs, n as int);
            assert(locs.subrange(n as int, n as int).len() == 0);
        }
    }
    Some(Declared { paths, registry })
}

pub open spec fn opt_str_view(o: Option<String>) -> Option<Seq<char>> {
    match o {
        Some(s) => Some(s@),
        None => None,
    }
}

} // verus!
