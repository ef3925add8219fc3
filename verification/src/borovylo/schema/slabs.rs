//! The slabs that hold the layouts, the buttons and the parameters.
//!
//! A slab maps keys to values and hands out keys itself. What one holds is
//! named by `*_slab_contents`; `*_slab_packed` says that it holds no vacant
//! entry (nothing was ever removed from it), in which case it gives out the
//! keys `0, 1, 2, ...` in the order of insertion.

use vstd::prelude::*;
use slab::Slab;
use crate::borovylo::schema::button::Button;
use crate::borovylo::schema::layout::Layout;
use crate::borovylo::schema::param::Param;

verus! {

#[verifier::external_type_specification]
#[verifier::external_body]
#[verifier::reject_recursive_types(T)]
pub struct ExSlab<T>(Slab<T>);

/// The entries of a slab of buttons, by key.
pub uninterp spec fn button_slab_contents(s: Slab<Button>) -> Map<usize, Button>;

/// The slab of buttons has no vacant entry.
pub uninterp spec fn button_slab_packed(s: Slab<Button>) -> bool;

/// The entries of a slab of layouts, by key.
pub uninterp spec fn layout_slab_contents(s: Slab<Layout>) -> Map<usize, Layout>;

/// The slab of layouts has no vacant entry.
pub uninterp spec fn layout_slab_packed(s: Slab<Layout>) -> bool;

/// The entries of a slab of parameters, by key.
pub uninterp spec fn param_slab_contents(s: Slab<Param>) -> Map<usize, Param>;

/// The slab of parameters has no vacant entry.
pub uninterp spec fn param_slab_packed(s: Slab<Param>) -> bool;

/// `Slab::new` for buttons: an empty slab, without vacant entries.
#[verifier::external_body]
pub(crate) fn new_button_slab() -> (slab: Slab<Button>)
    ensures
        button_slab_contents(slab).dom().is_empty(),
        button_slab_packed(slab),
{
    Slab::new()
}

/// `Slab::insert` for buttons: stores the button under a key that was free
/// and returns the key; a slab without vacant entries uses the key equal to
/// its number of entries and stays without vacant entries.
#[verifier::external_body]
pub(crate) fn insert_button(s: &mut Slab<Button>, val: Button) -> (key: usize)
    requires
        button_slab_contents(*old(s)).dom().len() < usize::MAX,
    ensures
        !button_slab_contents(*old(s)).dom().contains(key),
        button_slab_contents(*final(s)) == button_slab_contents(*old(s)).insert(key, val),
        button_slab_packed(*old(s)) ==> key == button_slab_contents(*old(s)).dom().len()
            && button_slab_packed(*final(s)),
{
    s.insert(val)
}

/// `Slab::get` for buttons: the entry under the key, if there is one.
#[verifier::external_body]
pub(crate) fn get_button(s: &Slab<Button>, key: usize) -> (r: Option<&Button>)
    ensures
        r == (if button_slab_contents(*s).dom().contains(key) {
            Some(&button_slab_contents(*s)[key])
        } else {
            None
        }),
{
    s.get(key)
}

/// `Slab::get_mut` for buttons: the entry under the key, if there is one, to
/// change in place; the slab keeps its keys. It does not panic.
#[verifier::external_body]
pub(crate) fn get_button_mut(s: &mut Slab<Button>, key: usize) -> (r: Option<&mut Button>)
    ensures
        button_slab_contents(*old(s)).dom().contains(key) ==> r.is_some()
            && *r.unwrap() == button_slab_contents(*old(s))[key]
            && button_slab_contents(*final(s)) == button_slab_contents(*old(s)).insert(key, *final(r.unwrap())),
        !button_slab_contents(*old(s)).dom().contains(key) ==> r.is_none() && *final(s) == *old(s),
        button_slab_packed(*final(s)) == button_slab_packed(*old(s)),
    no_unwind
{
    s.get_mut(key)
}

/// `Slab::len` for buttons: the number of entries.
#[verifier::external_body]
pub(crate) fn button_slab_len(s: &Slab<Button>) -> (n: usize)
    ensures
        n == button_slab_contents(*s).dom().len(),
{
    s.len()
}

/// `Slab::new` for layouts.
#[verifier::external_body]
pub(crate) fn new_layout_slab() -> (slab: Slab<Layout>)
    ensures
        layout_slab_contents(slab).dom().is_empty(),
        layout_slab_packed(slab),
{
    Slab::new()
}

/// `Slab::insert` for layouts, as for buttons.
#[verifier::external_body]
pub(crate) fn insert_layout(s: &mut Slab<Layout>, val: Layout) -> (key: usize)
    requires
        layout_slab_contents(*old(s)).dom().len() < usize::MAX,
    ensures
        !layout_slab_contents(*old(s)).dom().contains(key),
        layout_slab_contents(*final(s)) == layout_slab_contents(*old(s)).insert(key, val),
        layout_slab_packed(*old(s)) ==> key == layout_slab_contents(*old(s)).dom().len()
            && layout_slab_packed(*final(s)),
{
    s.insert(val)
}

/// `Slab::get` for layouts.
#[verifier::external_body]
pub(crate) fn get_layout(s: &Slab<Layout>, key: usize) -> (r: Option<&Layout>)
    ensures
        r == (if layout_slab_contents(*s).dom().contains(key) {
            Some(&layout_slab_contents(*s)[key])
        } else {
            None
        }),
{
    s.get(key)
}

/// `Slab::new` for parameters.
#[verifier::external_body]
pub(crate) fn new_param_slab() -> (slab: Slab<Param>)
    ensures
        param_slab_contents(slab).dom().is_empty(),
        param_slab_packed(slab),
{
    Slab::new()
}

/// `Slab::insert` for parameters, as for buttons.
#[verifier::external_body]
pub(crate) fn insert_param(s: &mut Slab<Param>, val: Param) -> (key: usize)
    requires
        param_slab_contents(*old(s)).dom().len() < usize::MAX,
    ensures
        !param_slab_contents(*old(s)).dom().contains(key),
        param_slab_contents(*final(s)) == param_slab_contents(*old(s)).insert(key, val),
        param_slab_packed(*old(s)) ==> key == param_slab_contents(*old(s)).dom().len()
            && param_slab_packed(*final(s)),
{
    s.insert(val)
}

/// `Slab::get` for parameters.
#[verifier::external_body]
pub(crate) fn get_param(s: &Slab<Param>, key: usize) -> (r: Option<&Param>)
    ensures
        r == (if param_slab_contents(*s).dom().contains(key) {
            Some(&param_slab_contents(*s)[key])
        } else {
            None
        }),
{
    s.get(key)
}

/// `Slab::contains` for parameters: whether the key has an entry.
#[verifier::external_body]
pub(crate) fn param_slab_contains(s: &Slab<Param>, key: usize) -> (r: bool)
    ensures
        r == param_slab_contents(*s).dom().contains(key),
{
    s.contains(key)
}

} // verus!
