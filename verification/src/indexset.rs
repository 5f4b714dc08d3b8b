//! The insertion-ordered sets of the `indexmap` crate, as the library uses them.
//!
//! What such a set holds is named by a spec function per element type: the sequence of its
//! items in insertion order.  Items are compared by their derived `Eq` (and hashed by their
//! derived `Hash`), which agree with structural equality for the plain types stored here.
use vstd::prelude::*;

use indexmap::IndexSet;

use crate::ability::{
    first_link_to, has_link_to, link_has_dest, link_kept_without, links_not_to, without_first_link_to,
    AbilityPoolLink,
};
use crate::channel::SenderDisplay;
use crate::common::ID;
use crate::config::Role;

verus! {

#[verifier::external_type_specification]
#[verifier::external_body]
#[verifier::reject_recursive_types(T)]
#[verifier::reject_recursive_types(S)]
pub struct ExIndexSet<T, S>(IndexSet<T, S>);

/// The pool links an `IndexSet<AbilityPoolLink>` holds, in insertion order.
pub uninterp spec fn pool_link_entries(s: IndexSet<AbilityPoolLink>) -> Seq<AbilityPoolLink>;

/// `IndexSet::new`: an empty set.
#[verifier::external_body]
pub(crate) fn pool_links_new() -> (s: IndexSet<AbilityPoolLink>)
    ensures
        pool_link_entries(s) == Seq::<AbilityPoolLink>::empty(),
{
    IndexSet::new()
}

/// `IndexSet::len`: the number of items.
#[verifier::external_body]
pub(crate) fn pool_links_len(s: &IndexSet<AbilityPoolLink>) -> (n: usize)
    ensures
        n == pool_link_entries(*s).len(),
{
    s.len()
}

/// `IndexSet::get_index`: the item at a position in insertion order, if there is one.
#[verifier::external_body]
pub(crate) fn pool_links_get_index(s: &IndexSet<AbilityPoolLink>, i: usize) -> (r: Option<AbilityPoolLink>)
    ensures
        (i as int) < pool_link_entries(*s).len() ==> r == Some(pool_link_entries(*s)[i as int]),
        (i as int) >= pool_link_entries(*s).len() ==> r is None,
{
    s.get_index(i).copied()
}

/// `IndexSet::insert`: appends an item that the set does not hold yet and returns `true`;
/// leaves the set as it is and returns `false` when an equal item is there.
#[verifier::external_body]
pub(crate) fn pool_links_insert(s: &mut IndexSet<AbilityPoolLink>, x: AbilityPoolLink) -> (added: bool)
    ensures
        added == !pool_link_entries(*old(s)).contains(x),
        pool_link_entries(*final(s)) == if added {
            pool_link_entries(*old(s)).push(x)
        } else {
            pool_link_entries(*old(s))
        },
{
    s.insert(x)
}

/// `IndexSet::extract_if` over the whole set, taking the first item the iterator yields:
/// removes and returns the first link (in insertion order) that points at `dest`, keeping
/// the order of the rest; leaves the set as it is and returns `None` when no link does.
#[verifier::external_body]
pub(crate) fn pool_links_extract_first_to(s: &mut IndexSet<AbilityPoolLink>, dest: ID) -> (r: Option<AbilityPoolLink>)
    ensures
        r == if has_link_to(pool_link_entries(*old(s)), dest) {
            Some(pool_link_entries(*old(s))[first_link_to(pool_link_entries(*old(s)), dest)])
        } else {
            None
        },
        pool_link_entries(*final(s)) == without_first_link_to(pool_link_entries(*old(s)), dest),
{
    s.extract_if(.., |l| link_has_dest(l, dest)).next()
}

/// `IndexSet::retain`: keeps, in order, the links that do not point at `dest`.
#[verifier::external_body]
pub(crate) fn pool_links_retain_not_to(s: &mut IndexSet<AbilityPoolLink>, dest: ID)
    ensures
        pool_link_entries(*final(s)) == pool_link_entries(*old(s)).filter(links_not_to(dest)),
{
    s.retain(|l| link_kept_without(l, dest))
}

/// `IndexSet::clone`: a set with the same items in the same order.
#[verifier::external_body]
pub(crate) fn pool_links_clone(s: &IndexSet<AbilityPoolLink>) -> (c: IndexSet<AbilityPoolLink>)
    ensures
        pool_link_entries(c) == pool_link_entries(*s),
{
    s.clone()
}

} // verus!

verus! {

/// The displays an `IndexSet<SenderDisplay>` holds, in insertion order.
pub uninterp spec fn display_entries(s: IndexSet<SenderDisplay>) -> Seq<SenderDisplay>;

/// `IndexSet::new`: an empty set.
#[verifier::external_body]
pub(crate) fn displays_new() -> (s: IndexSet<SenderDisplay>)
    ensures
        display_entries(s) == Seq::<SenderDisplay>::empty(),
{
    IndexSet::new()
}

/// `IndexSet::insert`: appends a display that the set does not hold yet and returns `true`;
/// leaves the set as it is and returns `false` when the display is there.
#[verifier::external_body]
pub(crate) fn displays_insert(s: &mut IndexSet<SenderDisplay>, x: SenderDisplay) -> (added: bool)
    ensures
        added == !display_entries(*old(s)).contains(x),
        display_entries(*final(s)) == if added {
            display_entries(*old(s)).push(x)
        } else {
            display_entries(*old(s))
        },
{
    s.insert(x)
}

/// `IndexSet::contains`: whether the set holds a display.
#[verifier::external_body]
pub(crate) fn displays_contains(s: &IndexSet<SenderDisplay>, x: &SenderDisplay) -> (b: bool)
    ensures
        b == display_entries(*s).contains(*x),
{
    s.contains(x)
}

/// `IndexSet::clone`: a set with the same displays in the same order.
#[verifier::external_body]
pub(crate) fn displays_clone(s: &IndexSet<SenderDisplay>) -> (c: IndexSet<SenderDisplay>)
    ensures
        display_entries(c) == display_entries(*s),
{
    s.clone()
}

} // verus!

verus! {

/// The roles an `IndexSet<Role>` holds, in insertion order.
pub uninterp spec fn role_entries(s: IndexSet<Role>) -> Seq<Role>;

/// `IndexSet::new`: an empty set.
#[verifier::external_body]
pub(crate) fn roles_new() -> (s: IndexSet<Role>)
    ensures
        role_entries(s) == Seq::<Role>::empty(),
{
    IndexSet::new()
}

/// `IndexSet::insert`: appends a role that the set does not hold yet and returns `true`;
/// leaves the set as it is and returns `false` when the role is there.
#[verifier::external_body]
pub(crate) fn roles_insert(s: &mut IndexSet<Role>, x: Role) -> (added: bool)
    ensures
        added == !role_entries(*old(s)).contains(x),
        role_entries(*final(s)) == if added {
            role_entries(*old(s)).push(x)
        } else {
            role_entries(*old(s))
        },
{
    s.insert(x)
}

/// `IndexSet::contains`: whether the set holds a role.
#[verifier::external_body]
pub(crate) fn roles_contains(s: &IndexSet<Role>, x: &Role) -> (b: bool)
    ensures
        b == role_entries(*s).contains(*x),
{
    s.contains(x)
}

} // verus!
