//! The `/user` commands: what changes for guilds when a user's whitelist
//! changes.

use crate::util::discord::GuildId;
use vstd::prelude::*;

verus! {

/// The guilds whose configuration is touched by a change of a whitelist.
#[derive(Debug)]
pub struct ServerConfigUpdates {
    /// Guilds that may be new to the bot: a default configuration is made
    /// for each that has none.
    pub to_create: Vec<GuildId>,
    /// Guilds that may have lost their last user: the configuration of each
    /// that has is deleted.
    pub to_delete: Vec<GuildId>,
}

/// The predicate "is not among `ids`".
pub open spec fn missing_from(ids: Seq<GuildId>) -> spec_fn(GuildId) -> bool {
    |id: GuildId| !ids.contains(id)
}

fn contains_guild(ids: &Vec<GuildId>, id: GuildId) -> (found: bool)
    ensures
        found == ids@.contains(id),
{
    let mut i: usize = 0;
    while i < ids.len()
        invariant
            i <= ids.len(),
            forall|k: int| 0 <= k < i ==> ids[k] != id,
        decreases ids.len() - i,
    {
        if ids[i] == id {
            return true;
        }
        i += 1;
    }
    false
}

fn without(ids: &Vec<GuildId>, others: &Vec<GuildId>) -> (rest: Vec<GuildId>)
    ensures
        rest@ == ids@.filter(missing_from(others@)),
{
    let mut rest: Vec<GuildId> = Vec::new();
    let ghost keep = missing_from(others@);
    assert(ids@.take(0).filter(keep) == Seq::<GuildId>::empty()) by {
        reveal_with_fuel(Seq::filter, 1);
    }
    let mut i: usize = 0;
    while i < ids.len()
        invariant
            i <= ids.len(),
            keep == missing_from(others@),
            rest@ == ids@.take(i as int).filter(keep),
        decreases ids.len() - i,
    {
        let id = ids[i];
        proof {
            assert(ids@.take(i + 1) == ids@.take(i as int).push(id));
            ids@.take(i as int).lemma_filter_push(id, keep);
        }
        if !contains_guild(others, id) {
            rest.push(id);
        }
        i += 1;
    }
    assert(ids@.take(ids.len() as int) == ids@);
    rest
}

/// Works out which guilds' configurations a change of a user's whitelist
/// touches: the guilds that are new on the list, and the guilds that left
/// it, each in the order of its list.
pub fn handle_server_config_updates(old_ids: &Vec<GuildId>, new_ids: &Vec<GuildId>) -> (updates:
    ServerConfigUpdates)
    ensures
        updates.to_create@ == new_ids@.filter(missing_from(old_ids@)),
        updates.to_delete@ == old_ids@.filter(missing_from(new_ids@)),
{
    ServerConfigUpdates { to_create: without(new_ids, old_ids), to_delete: without(old_ids, new_ids) }
}

} // verus!
