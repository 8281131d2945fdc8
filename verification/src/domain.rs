//! Domain names: the first label of a name and the parent domain behind it.

use crate::model::text_view;
use vstd::prelude::*;
use vstd::string::*;

verus! {

/// Whether `name` holds a dot.
pub open spec fn has_dot(name: Seq<char>) -> bool {
    exists|i: int| 0 <= i < name.len() && name[i] == '.'
}

/// Whether `i` is where the first dot of `name` stands.
pub open spec fn is_first_dot(name: Seq<char>, i: int) -> bool {
    &&& 0 <= i < name.len()
    &&& name[i] == '.'
    &&& forall|j: int| 0 <= j < i ==> name[j] != '.'
}

/// Where the first dot of `name` stands. Meaningful where `name` has a dot.
pub open spec fn first_dot(name: Seq<char>) -> int {
    choose|i: int| is_first_dot(name, i)
}

/// The leftmost label of `name`: what stands before its first dot.
pub open spec fn first_label(name: Seq<char>) -> Seq<char>
    recommends
        has_dot(name),
{
    name.take(first_dot(name))
}

/// The parent domain of `name`: what stands behind its first dot. A name
/// without a dot has none.
pub open spec fn parent_of(name: Seq<char>) -> Option<Seq<char>> {
    if has_dot(name) {
        Some(name.skip(first_dot(name) + 1))
    } else {
        None
    }
}

/// A name has at most one first dot.
pub proof fn lemma_first_dot_unique(name: Seq<char>, i: int)
    requires
        is_first_dot(name, i),
    ensures
        has_dot(name),
        first_dot(name) == i,
{
    assert(is_first_dot(name, first_dot(name)));
}

/// A name with a dot has a first dot.
pub proof fn lemma_first_dot_exists(name: Seq<char>)
    requires
        has_dot(name),
    ensures
        is_first_dot(name, first_dot(name)),
{
    let w = choose|i: int| 0 <= i < name.len() && name[i] == '.';
    lemma_first_dot_below(name, w);
}

/// A dot at `w` has a first dot at or before it.
proof fn lemma_first_dot_below(name: Seq<char>, w: int)
    requires
        0 <= w < name.len(),
        name[w] == '.',
    ensures
        exists|i: int| is_first_dot(name, i),
    decreases w,
{
    if exists|j: int| 0 <= j < w && name[j] == '.' {
        let j = choose|j: int| 0 <= j < w && name[j] == '.';
        lemma_first_dot_below(name, j);
    } else {
        assert(is_first_dot(name, w));
    }
}

/// The parent of a name is the name without its first label: a name with a
/// dot is its first label, which holds no dot, then a dot, then its parent.
pub proof fn lemma_parent_is_name_minus_first_label(name: Seq<char>)
    requires
        has_dot(name),
    ensures
        parent_of(name) is Some,
        !has_dot(first_label(name)),
        name == first_label(name) + seq!['.'] + parent_of(name)->0,
{
    lemma_first_dot_exists(name);
    let i = first_dot(name);
    let label = first_label(name);
    assert(!has_dot(label)) by {
        if has_dot(label) {
            let j = choose|j: int| 0 <= j < label.len() && label[j] == '.';
            assert(name[j] == label[j]);
        }
    }
    assert(name =~= label + seq!['.'] + name.skip(i + 1));
}

/// Whatever is joined to a dot-free label by a dot is the parent of the
/// joined name.
pub proof fn lemma_parent_of_joined(label: Seq<char>, rest: Seq<char>)
    requires
        !has_dot(label),
    ensures
        parent_of(label + seq!['.'] + rest) == Some(rest),
        first_label(label + seq!['.'] + rest) == label,
{
    let name = label + seq!['.'] + rest;
    let i = label.len() as int;
    assert(name[i] == '.');
    assert forall|j: int| 0 <= j < i implies name[j] != '.' by {
        assert(name[j] == label[j]);
    }
    assert(is_first_dot(name, i));
    lemma_first_dot_unique(name, i);
    assert(name.skip(i + 1) =~= rest);
    assert(name.take(i) =~= label);
}

/// The parent domain of `domain_name`: everything behind its first dot, or
/// `None` where it has no dot.
pub fn parent_domain(domain_name: &str) -> (parent: Option<String>)
    ensures
        text_view(parent) == parent_of(domain_name@),
{
    let n = domain_name.unicode_len();
    let mut i: usize = 0;
    for c in it: domain_name.chars()
        invariant
            n == domain_name@.len(),
            it.seq() == domain_name@,
            i == it.index(),
            forall|j: int| 0 <= j < i ==> domain_name@[j] != '.',
    {
        if c == '.' {
            proof {
                lemma_first_dot_unique(domain_name@, i as int);
            }
            let rest = domain_name.substring_char(i + 1, n);
            return Some(String::from_str(rest));
        }
        i += 1;
    }
    None
}

} // verus!
