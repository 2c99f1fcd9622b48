//! The immutable configuration of the moderator: its own account and the
//! table that sends each moderated community's reports to a channel.

use vstd::prelude::*;

verus! {

/// One line of the table: reports about `community_id` go to `channel_id`.
#[derive(Clone, Copy, Debug)]
pub struct ChannelRoute {
    pub community_id: u64,
    pub channel_id: u64,
}

/// What a sequence of routes says about one community: the channel of the
/// latest route for it, or nothing where no route names it.
pub open spec fn route_lookup(routes: Seq<ChannelRoute>, community: u64) -> Option<u64>
    decreases routes.len(),
{
    if routes.len() == 0 {
        None
    } else if routes.last().community_id == community {
        Some(routes.last().channel_id)
    } else {
        route_lookup(routes.drop_last(), community)
    }
}

/// The table from community to report channel. A community that is not in
/// the table has no destination: there is no default channel.
pub struct ChannelMapping {
    routes: Vec<ChannelRoute>,
}

impl View for ChannelMapping {
    type V = Map<u64, u64>;

    closed spec fn view(&self) -> Map<u64, u64> {
        Map::new(
            |c: u64| route_lookup(self.routes@, c) is Some,
            |c: u64| route_lookup(self.routes@, c).unwrap(),
        )
    }
}

impl ChannelMapping {
    /// The table without any community.
    pub fn new() -> (mapping: ChannelMapping)
        ensures
            mapping@ == Map::<u64, u64>::empty(),
    {
        let mapping = ChannelMapping { routes: Vec::new() };
        assert(mapping@ =~= Map::<u64, u64>::empty());
        mapping
    }

    /// Sends the reports about `community` to `channel` from now on.
    pub fn insert(&mut self, community: u64, channel: u64)
        ensures
            final(self)@ == old(self)@.insert(community, channel),
    {
        let ghost before = self.routes@;
        self.routes.push(ChannelRoute { community_id: community, channel_id: channel });
        proof {
            let after = self.routes@;
            assert(after.drop_last() =~= before);
            assert forall|c: u64|
                route_lookup(after, c) == (if c == community {
                    Some(channel)
                } else {
                    route_lookup(before, c)
                }) by {}
            assert(self@ =~= old(self)@.insert(community, channel));
        }
    }

    /// The channel that takes the reports about `community`, if it has one.
    pub fn destination(&self, community: u64) -> (channel: Option<u64>)
        ensures
            channel is Some <==> self@.contains_key(community),
            channel is Some ==> channel.unwrap() == self@[community],
    {
        let mut i: usize = self.routes.len();
        assert(self.routes@.take(i as int) =~= self.routes@);
        while i > 0
            invariant
                i <= self.routes.len(),
                route_lookup(self.routes@, community) == route_lookup(
                    self.routes@.take(i as int),
                    community,
                ),
            decreases i,
        {
            let route = self.routes[i - 1];
            proof {
                let head = self.routes@.take(i as int);
                assert(head.last() == self.routes@[i - 1]);
                assert(head.drop_last() =~= self.routes@.take(i - 1));
            }
            if route.community_id == community {
                return Some(route.channel_id);
            }
            i = i - 1;
        }
        None
    }

    /// Whether no community has a destination.
    pub fn is_empty(&self) -> (empty: bool)
        ensures
            empty <==> self@ == Map::<u64, u64>::empty(),
    {
        let empty = self.routes.len() == 0;
        proof {
            if empty {
                assert(self@ =~= Map::<u64, u64>::empty());
            } else {
                assert(self@.contains_key(self.routes@.last().community_id));
            }
        }
        empty
    }
}

/// What the moderator is configured with when it starts. Nothing changes it
/// while events are handled.
pub struct ModeratorConfig {
    /// The moderator's own account: its messages are never judged.
    pub self_id: u64,
    /// Where each moderated community's reports go.
    pub mapping: ChannelMapping,
}

impl ModeratorConfig {
    /// A configuration for the account `self_id` with the table `mapping`.
    pub fn new(self_id: u64, mapping: ChannelMapping) -> (config: ModeratorConfig)
        ensures
            config.self_id == self_id,
            config.mapping == mapping,
    {
        ModeratorConfig { self_id, mapping }
    }

    /// The configuration of the deployed moderator: its account and the two
    /// communities it watches.
    pub fn standard() -> (config: ModeratorConfig)
        ensures
            config.self_id == 1314997214866571284u64,
            config.mapping@ == Map::<u64, u64>::empty().insert(
                145457131640848384u64,
                335451227028717568u64,
            ).insert(238666723824238602u64, 1315930244682743839u64),
    {
        let mut mapping = ChannelMapping::new();
        mapping.insert(145457131640848384u64, 335451227028717568u64);
        mapping.insert(238666723824238602u64, 1315930244682743839u64);
        ModeratorConfig { self_id: 1314997214866571284u64, mapping }
    }
}

} // verus!
