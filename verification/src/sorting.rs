use vstd::prelude::*;
use crate::legacy::{places_in, rising, sorted_by_name, ties_keep_their_order, ReleaseFile};

verus! {

/// Calls `sort_by` of std's slices on the places, comparing the names of
/// the files at two places with `cmp` of `String`. Believed without proof,
/// from std's documentation: the call reorders the places and loses or adds
/// none; afterwards the names stand in the order of strings, which goes by
/// their characters; and the sort is stable, so that of two files of one
/// name the one whose place came first still comes first.
#[verifier::external_body]
pub(crate) fn sort_by_name(order: &mut Vec<usize>, files: &Vec<ReleaseFile>)
    requires
        places_in(files@, old(order)@),
    ensures
        final(order)@.to_multiset() == old(order)@.to_multiset(),
        sorted_by_name(files@, final(order)@),
        rising(old(order)@) ==> ties_keep_their_order(files@, final(order)@),
{
    order.sort_by(|a, b| files[*a].name.cmp(&files[*b].name));
}

} // verus!
