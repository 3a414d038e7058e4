//! The registry of honeypot channels: the channels in which every message
//! is suspicious.

use crate::util::discord::{parse_id, parse_snowflake_spec, ChannelId, SnowflakeError};
use dashmap::DashSet;
use vstd::prelude::*;

verus! {

/// The concurrent set of the `dashmap` crate.
#[verifier::external_type_specification]
#[verifier::external_body]
#[verifier::reject_recursive_types(K)]
#[verifier::reject_recursive_types(S)]
pub struct ExDashSet<K, S>(DashSet<K, S>);

/// The channel identifiers that a set holds.
pub uninterp spec fn channel_ids(set: DashSet<u64>) -> Set<u64>;

/// An empty set.
///
/// Trusted: calls `DashSet::new`, which makes a set without keys.
#[verifier::external_body]
fn set_new() -> (set: DashSet<u64>)
    ensures
        channel_ids(set) == Set::<u64>::empty(),
{
    DashSet::new()
}

/// Removes every key.
///
/// Trusted: calls `DashSet::clear`, which empties the set.
#[verifier::external_body]
fn set_clear(set: &mut DashSet<u64>)
    ensures
        channel_ids(*final(set)) == Set::<u64>::empty(),
{
    set.clear();
}

/// Adds a key.
///
/// Trusted: calls `DashSet::insert`, which adds the key and keeps all
/// others, and returns whether the key was not there before.
#[verifier::external_body]
fn set_insert(set: &mut DashSet<u64>, key: u64) -> (fresh: bool)
    ensures
        channel_ids(*final(set)) == channel_ids(*old(set)).insert(key),
        fresh == !channel_ids(*old(set)).contains(key),
{
    set.insert(key)
}

/// Whether a key is there.
///
/// Trusted: calls `DashSet::contains`, which looks the key up and changes
/// nothing.
#[verifier::external_body]
fn set_contains(set: &DashSet<u64>, key: u64) -> (found: bool)
    ensures
        found == channel_ids(*set).contains(key),
{
    set.contains(&key)
}

/// The registered honeypot channels.
pub struct HoneypotChannels {
    channels: DashSet<u64>,
}

/// The channels that the stored snowflakes name, or the error of the first
/// one that is no snowflake. Guilds without a honeypot channel store none.
pub open spec fn stored_channels(snowflakes: Seq<Option<String>>) -> Result<
    Set<ChannelId>,
    SnowflakeError,
>
    decreases snowflakes.len(),
{
    if snowflakes.len() == 0 {
        Ok(Set::empty())
    } else {
        match stored_channels(snowflakes.drop_last()) {
            Err(e) => Err(e),
            Ok(ids) => match snowflakes.last() {
                None => Ok(ids),
                Some(text) => match parse_snowflake_spec(text@) {
                    Ok(id) => Ok(ids.insert(id)),
                    Err(e) => Err(e),
                },
            },
        }
    }
}

impl View for HoneypotChannels {
    type V = Set<ChannelId>;

    closed spec fn view(&self) -> Set<ChannelId> {
        channel_ids(self.channels)
    }
}

impl HoneypotChannels {
    /// A registry without channels.
    pub fn new() -> (channels: HoneypotChannels)
        ensures
            channels@ == Set::<ChannelId>::empty(),
    {
        HoneypotChannels { channels: set_new() }
    }

    /// Whether a channel is a honeypot channel.
    pub fn contains(&self, channel_id: ChannelId) -> (found: bool)
        ensures
            found == self@.contains(channel_id),
    {
        set_contains(&self.channels, channel_id)
    }

    /// Registers a channel.
    pub fn insert(&mut self, channel_id: ChannelId) -> (fresh: bool)
        ensures
            final(self)@ == old(self)@.insert(channel_id),
            fresh == !old(self)@.contains(channel_id),
    {
        set_insert(&mut self.channels, channel_id)
    }

    /// Forgets every channel.
    pub fn clear(&mut self)
        ensures
            final(self)@ == Set::<ChannelId>::empty(),
    {
        set_clear(&mut self.channels);
    }
}

/// Replaces the registry's content by the honeypot channels that the
/// guilds have stored: one optional snowflake per guild. If one of them is
/// no snowflake, the registry is left as it was and the error is returned.
pub fn populate_honeypot_channels(
    channels: &mut HoneypotChannels,
    snowflakes: &Vec<Option<String>>,
) -> (r: Result<(), SnowflakeError>)
    ensures
        match r {
            Ok(()) => stored_channels(snowflakes@) == Ok::<Set<ChannelId>, SnowflakeError>(
                final(channels)@,
            ),
            Err(e) => stored_channels(snowflakes@) == Err::<Set<ChannelId>, SnowflakeError>(e)
                && final(channels)@ == old(channels)@,
        },
{
    let mut ids: Vec<ChannelId> = Vec::new();
    let mut i: usize = 0;
    assert(snowflakes@.take(0).len() == 0);
    assert(ids@.to_set() =~= Set::<ChannelId>::empty());
    while i < snowflakes.len()
        invariant
            i <= snowflakes.len(),
            stored_channels(snowflakes@.take(i as int)) == Ok::<Set<ChannelId>, SnowflakeError>(
                ids@.to_set(),
            ),
        decreases snowflakes.len() - i,
    {
        proof {
            assert(snowflakes@.take(i + 1).drop_last() == snowflakes@.take(i as int));
            assert(snowflakes@.take(i + 1).last() == snowflakes@[i as int]);
            assert(snowflakes@.take(snowflakes.len() as int) == snowflakes@);
        }
        match &snowflakes[i] {
            None => {},
            Some(text) => match parse_id(text.as_str()) {
                Ok(id) => {
                    proof {
                        Seq::lemma_to_set_insert_commutes(ids@, id);
                        assert(ids@ + seq![id] == ids@.push(id));
                    }
                    ids.push(id);
                },
                Err(e) => {
                    proof {
                        lemma_stored_channels_error(snowflakes@, i + 1, e);
                    }
                    return Err(e);
                },
            },
        }
        i += 1;
    }
    assert(snowflakes@.take(snowflakes.len() as int) == snowflakes@);
    channels.clear();
    let mut k: usize = 0;
    assert(ids@.take(0).to_set() =~= Set::<ChannelId>::empty());
    while k < ids.len()
        invariant
            k <= ids.len(),
            channels@ == ids@.take(k as int).to_set(),
        decreases ids.len() - k,
    {
        proof {
            Seq::lemma_to_set_insert_commutes(ids@.take(k as int), ids@[k as int]);
            assert(ids@.take(k as int) + seq![ids@[k as int]] == ids@.take(k + 1));
        }
        channels.insert(ids[k]);
        k += 1;
    }
    assert(ids@.take(ids.len() as int) == ids@);
    Ok(())
}

/// An error among the first `n` stored snowflakes is the error of the
/// whole list.
proof fn lemma_stored_channels_error(snowflakes: Seq<Option<String>>, n: int, e: SnowflakeError)
    requires
        0 <= n <= snowflakes.len(),
        stored_channels(snowflakes.take(n)) == Err::<Set<ChannelId>, SnowflakeError>(e),
    ensures
        stored_channels(snowflakes) == Err::<Set<ChannelId>, SnowflakeError>(e),
    decreases snowflakes.len() - n,
{
    if n < snowflakes.len() {
        assert(snowflakes.take(n + 1).drop_last() == snowflakes.take(n));
        lemma_stored_channels_error(snowflakes, n + 1, e);
    } else {
        assert(snowflakes.take(n) == snowflakes);
    }
}

} // verus!
