//! Places in the file system, as the library speaks of them: a root directory
//! that the caller owns, and the names of the entries that lead down from it.

use vstd::prelude::*;

verus! {

/// `std::path::PathBuf`, carried through unopened.
#[verifier::external_type_specification]
#[verifier::external_body]
pub struct ExPathBuf(std::path::PathBuf);

/// `PathBuf::clone`: the copy is the same path.
pub assume_specification[ <std::path::PathBuf as Clone>::clone ](path: &std::path::PathBuf) -> (out:
    std::path::PathBuf)
    ensures
        out == *path,
;

/// The entry reached from `root` by descending through `segments` in order.
#[derive(Debug, PartialEq, Eq)]
pub struct Location {
    pub root: std::path::PathBuf,
    pub segments: Vec<String>,
}

/// A `Location` with its segments as character sequences.
pub struct LocationView {
    pub root: std::path::PathBuf,
    pub segments: Seq<Seq<char>>,
}

impl LocationView {
    /// The entry called `segment` inside this one.
    pub open spec fn join(self, segment: Seq<char>) -> LocationView {
        LocationView { root: self.root, segments: self.segments.push(segment) }
    }

    /// Whether the location names an entry below its root.
    pub open spec fn has_name(self) -> bool {
        self.segments.len() > 0
    }

    /// The name of the entry: the last segment.
    pub open spec fn name(self) -> Seq<char>
        recommends
            self.has_name(),
    {
        self.segments.last()
    }
}

impl View for Location {
    type V = LocationView;

    open spec fn view(&self) -> LocationView {
        LocationView { root: self.root, segments: self.segments.deep_view() }
    }
}

/// The views of a sequence of locations.
pub open spec fn location_views(locations: Seq<Location>) -> Seq<LocationView> {
    locations.map_values(|location: Location| location@)
}

/// A copy of `names`, string by string.
fn clone_names(names: &Vec<String>) -> (out: Vec<String>)
    ensures
        out.deep_view() == names.deep_view(),
{
    let mut out: Vec<String> = Vec::new();
    let mut i: usize = 0;
    while i < names.len()
        invariant
            i <= names.len(),
            out.len() == i,
            forall|j: int| 0 <= j < i ==> out[j]@ == names[j]@,
        decreases names.len() - i,
    {
        out.push(names[i].clone());
        i += 1;
    }
    assert(out.deep_view() =~= names.deep_view());
    out
}

impl Location {
    /// The root itself.
    pub fn new(root: std::path::PathBuf) -> (out: Location)
        ensures
            out@ == (LocationView { root, segments: Seq::empty() }),
    {
        let out = Location { root, segments: Vec::new() };
        assert(out.segments.deep_view() =~= Seq::<Seq<char>>::empty());
        out
    }

    /// The entry called `segment` inside this one.
    pub fn join(&self, segment: &str) -> (out: Location)
        ensures
            out@ == self@.join(segment@),
    {
        let mut segments = clone_names(&self.segments);
        segments.push(segment.to_owned());
        assert(segments.deep_view() =~= self.segments.deep_view().push(segment@));
        Location { root: self.root.clone(), segments }
    }

    /// The name of an entry that lies below its root.
    pub fn name(&self) -> (out: String)
        requires
            self@.has_name(),
        ensures
            out@ == self@.name(),
    {
        self.segments[self.segments.len() - 1].clone()
    }

    /// A copy of this location.
    pub fn duplicate(&self) -> (out: Location)
        ensures
            out@ == self@,
    {
        Location { root: self.root.clone(), segments: clone_names(&self.segments) }
    }
}

} // verus!
