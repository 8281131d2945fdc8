//! Zone Resolver: from a domain name to the zone that owns its parent
//! domain, by the provider's zone directory.

use crate::domain::{has_dot, lemma_parent_of_joined, parent_domain, parent_of};
use crate::model::{Zone, ZoneEntry, ZoneEntryView, ZoneView};
use vstd::prelude::*;
use vstd::string::*;

verus! {

/// View of a zone directory, line by line.
pub open spec fn directory_view(directory: Seq<ZoneEntry>) -> Seq<ZoneEntryView> {
    directory.map_values(|entry: ZoneEntry| entry@)
}

/// View of an optional zone.
pub open spec fn zone_view(zone: Option<Zone>) -> Option<ZoneView> {
    match zone {
        Some(z) => Some(z@),
        None => None,
    }
}

/// Whether some line of `directory` is for the domain `name`.
pub open spec fn lists(directory: Seq<ZoneEntryView>, name: Seq<char>) -> bool {
    exists|i: int| 0 <= i < directory.len() && directory[i].name == name
}

/// Whether line `i` is the first line of `directory` for the domain `name`.
pub open spec fn is_first_line_for(directory: Seq<ZoneEntryView>, name: Seq<char>, i: int) -> bool {
    &&& 0 <= i < directory.len()
    &&& directory[i].name == name
    &&& forall|j: int| 0 <= j < i ==> directory[j].name != name
}

/// The zone that `directory` gives for the domain `name`: that of its first
/// line for exactly this name, if it has one.
pub open spec fn zone_named(name: Seq<char>, directory: Seq<ZoneEntryView>) -> Option<ZoneView> {
    if lists(directory, name) {
        let i = choose|i: int| is_first_line_for(directory, name, i);
        Some(ZoneView { zone_id: directory[i].zone_id })
    } else {
        None
    }
}

/// The zone that owns `domain_name`: the zone that `directory` gives for
/// its parent domain. A name without a dot has no parent and no zone.
pub open spec fn zone_for(domain_name: Seq<char>, directory: Seq<ZoneEntryView>) -> Option<ZoneView> {
    match parent_of(domain_name) {
        Some(parent) => zone_named(parent, directory),
        None => None,
    }
}

/// The first line for a name decides the zone.
pub proof fn lemma_first_line_decides(directory: Seq<ZoneEntryView>, name: Seq<char>, i: int)
    requires
        is_first_line_for(directory, name, i),
    ensures
        zone_named(name, directory) == Some(ZoneView { zone_id: directory[i].zone_id }),
{
    let k = choose|k: int| is_first_line_for(directory, name, k);
    assert(is_first_line_for(directory, name, k));
}

/// The resolver looks up the parent domain: for a name made of a dot-free
/// first label, a dot and the rest, the zone is the one that `directory`
/// gives for the rest.
pub proof fn lemma_zone_is_looked_up_by_parent(
    label: Seq<char>,
    rest: Seq<char>,
    directory: Seq<ZoneEntryView>,
)
    requires
        !has_dot(label),
    ensures
        zone_for(label + seq!['.'] + rest, directory) == zone_named(rest, directory),
{
    lemma_parent_of_joined(label, rest);
}

/// Picks from `directory` the zone of the domain `parent`: the first line
/// whose name is exactly `parent` decides; without such a line there is no
/// zone.
pub fn select_zone(parent: &str, directory: &Vec<ZoneEntry>) -> (zone: Option<Zone>)
    ensures
        zone_view(zone) == zone_named(parent@, directory_view(directory@)),
{
    let wanted = String::from_str(parent);
    let ghost lines = directory_view(directory@);
    let mut i: usize = 0;
    while i < directory.len()
        invariant
            i <= directory.len(),
            wanted@ == parent@,
            lines == directory_view(directory@),
            forall|j: int| 0 <= j < i ==> lines[j].name != parent@,
        decreases directory.len() - i,
    {
        if directory[i].name == wanted {
            proof {
                assert(lines[i as int] == directory@[i as int]@);
                lemma_first_line_decides(lines, parent@, i as int);
            }
            return Some(Zone { zone_id: directory[i].zone_id.clone() });
        }
        assert(lines[i as int] == directory@[i as int]@);
        i += 1;
    }
    None
}

/// Resolves the zone that owns `domain_name`: derives the parent domain,
/// the name without its leftmost label, and looks it up in `directory`.
/// `None` says that no zone matches; it is no error.
pub fn resolve_zone(domain_name: &str, directory: &Vec<ZoneEntry>) -> (zone: Option<Zone>)
    ensures
        zone_view(zone) == zone_for(domain_name@, directory_view(directory@)),
{
    match parent_domain(domain_name) {
        Some(parent) => select_zone(parent.as_str(), directory),
        None => None,
    }
}

} // verus!
