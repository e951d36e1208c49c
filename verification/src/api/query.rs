//! Field-selection enumerations and their comma-joined rendering.
//!
//! Each endpoint owns closed enumerations naming which optional sub-fields of
//! a resource the caller wants.  A selected list is rendered as the documented
//! wire names joined with commas, under a single parameter key; an absent list
//! is omitted from the query string entirely.

use crate::text::{join_with, joined};
use vstd::prelude::*;

verus! {

/// One value of a closed field-selection enumeration, rendered under its
/// documented wire name.
pub trait FieldName {
    /// The documented wire name of the selection.
    spec fn name_spec(&self) -> Seq<char>;

    /// Renders the wire name.
    fn name(&self) -> (r: &'static str)
        ensures
            r@ == self.name_spec(),
    ;
}

/// The wire names of the selections, in order.
pub open spec fn names_of<T: FieldName>(fields: Seq<T>) -> Seq<Seq<char>> {
    fields.map_values(|f: T| f.name_spec())
}

/// The selections' wire names joined with commas: two selections for one
/// field group give a single `a,b`, never two separate pairs.
pub open spec fn comma_joined<T: FieldName>(fields: Seq<T>) -> Seq<char> {
    joined(names_of(fields), ","@)
}

/// Law: two selections for one field group render as a single comma-joined
/// value `a,b`, never as two separate pairs.
pub proof fn lemma_two_selections_one_value<T: FieldName>(a: T, b: T)
    ensures
        comma_joined(seq![a, b]) == a.name_spec() + ","@ + b.name_spec(),
{
    let pair = seq![a, b];
    assert(names_of(pair) =~= seq![a.name_spec(), b.name_spec()]);
    assert(names_of(pair).drop_last() =~= seq![a.name_spec()]);
    assert(joined(seq![a.name_spec()], ","@) == a.name_spec());
}

/// Joins the selections' wire names with commas.
pub fn join_fields<T: FieldName>(fields: &Vec<T>) -> (r: String)
    ensures
        r@ == comma_joined(fields@),
{
    let mut names: Vec<String> = Vec::new();
    let mut i: usize = 0;
    while i < fields.len()
        invariant
            i <= fields.len(),
            names.deep_view() == names_of(fields@.take(i as int)),
        decreases fields.len() - i,
    {
        names.push(String::from_str(fields[i].name()));
        proof {
            assert(names_of(fields@.take(i + 1)) =~= names_of(fields@.take(i as int)).push(
                fields@[i as int].name_spec(),
            ));
            assert(names.deep_view() =~= names_of(fields@.take(i as int)).push(
                fields@[i as int].name_spec(),
            ));
        }
        i = i + 1;
    }
    proof {
        assert(fields@.take(fields@.len() as int) =~= fields@);
    }
    join_with(&names, ",")
}

} // verus!
