//! The replies a handler produces, keyed by the connection they go to.

use vstd::prelude::*;
use std::collections::HashMap;
use crate::replies::{Reply, ReplyView};
use crate::message_parsing::opt_view;

verus! {

/// The views of a list of replies.
pub open spec fn reply_views(v: Seq<Reply>) -> Seq<ReplyView> {
    v.map_values(|r: Reply| r@)
}

/// Replies per connection, each taken by its view.
pub open spec fn outbox_view(m: Map<u128, Vec<Reply>>) -> Map<u128, Seq<ReplyView>> {
    m.map_values(|v: Vec<Reply>| reply_views(v@))
}

/// An outbox holding `replies` for `id` alone.
pub fn single(id: u128, replies: Vec<Reply>) -> (m: HashMap<u128, Vec<Reply>>)
    ensures
        outbox_view(m@) == Map::<u128, Seq<ReplyView>>::empty().insert(id, reply_views(replies@)),
{
    broadcast use vstd::std_specs::hash::group_hash_axioms;
    let mut m: HashMap<u128, Vec<Reply>> = HashMap::new();
    let ghost r = replies@;
    m.insert(id, replies);
    assert(outbox_view(m@) =~= Map::<u128, Seq<ReplyView>>::empty().insert(id, reply_views(r)));
    m
}

/// Puts `replies` in the outbox for `id`, replacing what was there.
pub fn put(m: &mut HashMap<u128, Vec<Reply>>, id: u128, replies: Vec<Reply>)
    ensures
        outbox_view(final(m)@) == outbox_view(old(m)@).insert(id, reply_views(replies@)),
{
    broadcast use vstd::std_specs::hash::group_hash_axioms;
    let ghost r = replies@;
    m.insert(id, replies);
    assert(outbox_view(final(m)@) =~= outbox_view(old(m)@).insert(id, reply_views(r)));
}

/// A copy of an optional string.
pub fn clone_opt(o: &Option<String>) -> (r: Option<String>)
    ensures
        opt_view(r) == opt_view(*o),
{
    match o {
        Some(s) => Some(s.clone()),
        None => None,
    }
}

} // verus!
