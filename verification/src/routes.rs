//! Routes of a payment: the hop after a node, and the routes that remain
//! usable.
use vstd::prelude::*;

use crate::map::LinearMap;
use crate::primitives::{Address, KeyEq, U256};
use crate::map::{entries_map, keys_distinct, lemma_entries_map_push, lemma_prefix_distinct};
use crate::types::state::{
    AddressMetadata, ChannelIdentifier, ChannelState, RouteState, TokenNetworkAddress,
};

verus! {

/// A channel's token network and partner, by which the channels usable for
/// a route are found.
#[derive(Clone, Copy, Debug)]
pub struct ChannelKey {
    pub token_network_address: TokenNetworkAddress,
    pub partner_address: Address,
}

impl KeyEq for ChannelKey {
    fn key_eq(&self, other: &Self) -> (r: bool) {
        self.token_network_address.equals(&other.token_network_address)
            && self.partner_address.equals(&other.partner_address)
    }
}

/// The node that follows the first occurrence of `address` in `route`.
pub open spec fn spec_hop_after(route: Seq<Address>, address: Address) -> Option<Address>
    decreases route.len(),
{
    if route.len() == 0 {
        None
    } else if route[0] == address {
        if route.len() > 1 {
            Some(route[1])
        } else {
            None
        }
    } else {
        spec_hop_after(route.drop_first(), address)
    }
}

impl RouteState {
    /// Returns the node after `address` in the route, if any.
    pub fn hop_after(&self, address: Address) -> (r: Option<Address>)
        ensures
            r == spec_hop_after(self.route@, address),
    {
        let n = self.route.len();
        let mut i: usize = 0;
        assert(self.route@.subrange(0, n as int) =~= self.route@);
        while i < n
            invariant
                i <= n,
                n == self.route@.len(),
                spec_hop_after(self.route@, address) == spec_hop_after(
                    self.route@.subrange(i as int, n as int),
                    address,
                ),
            decreases n - i,
        {
            let ghost s = self.route@.subrange(i as int, n as int);
            assert(s[0] == self.route@[i as int]);
            if self.route[i].equals(&address) {
                if i + 1 < n {
                    assert(s[1] == self.route@[i + 1]);
                    return Some(self.route[i + 1]);
                }
                return None;
            }
            assert(s.drop_first() =~= self.route@.subrange(i + 1, n as int));
            i = i + 1;
        }
        None
    }
}

/// Both are no hop, or the same hop.
fn same_hop(a: &Option<Address>, b: &Option<Address>) -> (r: bool)
    ensures
        r == (*a == *b),
{
    match (a, b) {
        (Some(x), Some(y)) => x.equals(y),
        (None, None) => true,
        _ => false,
    }
}

/// The positions of the routes of `routes` whose hop after `our_address`
/// is `hop`, in order.
pub open spec fn spec_same_hop_positions(
    routes: Seq<RouteState>,
    hop: Option<Address>,
    our_address: Address,
) -> Seq<int>
    decreases routes.len(),
{
    if routes.len() == 0 {
        Seq::empty()
    } else {
        let rest = spec_same_hop_positions(routes.drop_last(), hop, our_address);
        if spec_hop_after(routes.last().route@, our_address) == hop {
            rest.push(routes.len() - 1)
        } else {
            rest
        }
    }
}

pub proof fn lemma_positions_in_range(routes: Seq<RouteState>, hop: Option<Address>, our_address: Address)
    ensures
        forall|k: int|
            0 <= k < spec_same_hop_positions(routes, hop, our_address).len() ==> 0
                <= #[trigger] spec_same_hop_positions(routes, hop, our_address)[k] < routes.len(),
    decreases routes.len(),
{
    if routes.len() > 0 {
        lemma_positions_in_range(routes.drop_last(), hop, our_address);
        let rest = spec_same_hop_positions(routes.drop_last(), hop, our_address);
        let all = spec_same_hop_positions(routes, hop, our_address);
        assert forall|k: int| 0 <= k < all.len() implies 0 <= #[trigger] all[k] < routes.len() by {
            if k < rest.len() {
                assert(all[k] == rest[k]);
            }
        }
    }
}

/// `route` with its first node taken out.
pub open spec fn spec_route_advanced(new: RouteState, old: RouteState) -> bool {
    &&& new.route@ == old.route@.drop_first()
    &&& new == RouteState { route: new.route, ..old }
}

/// Keeps the routes that continue through the same hop as the selected
/// route, each without its first node.
pub fn prune_route_table(
    route_states: Vec<RouteState>,
    selected_route: RouteState,
    our_address: Address,
) -> (r: Vec<RouteState>)
    requires
        forall|i: int|
            0 <= i < route_states@.len() && spec_hop_after(
                #[trigger] route_states@[i].route@,
                our_address,
            ) == spec_hop_after(selected_route.route@, our_address) ==> route_states@[i].route@.len()
                > 0,
    ensures
        ({
            let positions = spec_same_hop_positions(
                route_states@,
                spec_hop_after(selected_route.route@, our_address),
                our_address,
            );
            &&& r@.len() == positions.len()
            &&& forall|k: int|
                0 <= k < r@.len() ==> spec_route_advanced(
                    #[trigger] r@[k],
                    route_states@[positions[k]],
                )
        }),
{
    let ghost initial = route_states@;
    let hop = selected_route.hop_after(our_address);
    let mut remaining = route_states;
    let mut result: Vec<RouteState> = Vec::new();
    let n = remaining.len();
    let mut i: usize = 0;
    while i < n
        invariant
            i <= n,
            n == initial.len(),
            hop == spec_hop_after(selected_route.route@, our_address),
            remaining@ == initial.subrange(i as int, n as int),
            forall|j: int|
                0 <= j < initial.len() && spec_hop_after(#[trigger] initial[j].route@, our_address)
                    == hop ==> initial[j].route@.len() > 0,
            result@.len() == spec_same_hop_positions(initial.take(i as int), hop, our_address).len(),
            forall|k: int|
                0 <= k < result@.len() ==> spec_route_advanced(
                    #[trigger] result@[k],
                    initial[spec_same_hop_positions(initial.take(i as int), hop, our_address)[k]],
                ),
        decreases n - i,
    {
        let route_state = remaining.remove(0);
        assert(route_state == initial[i as int]);
        assert(initial.take(i + 1).drop_last() =~= initial.take(i as int));
        assert(remaining@ =~= initial.subrange(i + 1, n as int));
        proof {
            lemma_positions_in_range(initial.take(i as int), hop, our_address);
        }
        if same_hop(&route_state.hop_after(our_address), &hop) {
            let mut route = route_state.route;
            route.remove(0);
            result.push(
                RouteState {
                    route,
                    address_to_metadata: route_state.address_to_metadata,
                    swaps: route_state.swaps,
                    estimated_fee: route_state.estimated_fee,
                },
            );
        }
        i = i + 1;
    }
    assert(initial.take(n as int) =~= initial);
    result
}

/// The positions of the routes of `routes` whose next hop after
/// `our_address` has a channel in the token network that is not
/// blacklisted, in order.
pub open spec fn spec_acceptable_positions(
    routes: Seq<RouteState>,
    blacklisted: Seq<ChannelIdentifier>,
    channels: Map<ChannelKey, &ChannelState>,
    token_network_address: TokenNetworkAddress,
    our_address: Address,
) -> Seq<int>
    decreases routes.len(),
{
    if routes.len() == 0 {
        Seq::empty()
    } else {
        let rest = spec_acceptable_positions(
            routes.drop_last(),
            blacklisted,
            channels,
            token_network_address,
            our_address,
        );
        if spec_route_acceptable(
            routes.last(),
            blacklisted,
            channels,
            token_network_address,
            our_address,
        ) {
            rest.push(routes.len() - 1)
        } else {
            rest
        }
    }
}

/// The route continues through a known channel that is not blacklisted.
pub open spec fn spec_route_acceptable(
    route: RouteState,
    blacklisted: Seq<ChannelIdentifier>,
    channels: Map<ChannelKey, &ChannelState>,
    token_network_address: TokenNetworkAddress,
    our_address: Address,
) -> bool {
    match spec_hop_after(route.route@, our_address) {
        Some(next_hop) => {
            &&& channels.contains_key(ChannelKey { token_network_address, partner_address: next_hop })
            &&& !blacklisted.contains(
                channels[ChannelKey { token_network_address, partner_address: next_hop }].canonical_identifier.channel_identifier,
            )
        },
        None => false,
    }
}

fn ids_contain(ids: &Vec<ChannelIdentifier>, id: &U256) -> (r: bool)
    ensures
        r == ids@.contains(*id),
{
    let mut i: usize = 0;
    while i < ids.len()
        invariant
            i <= ids@.len(),
            forall|j: int| 0 <= j < i ==> ids@[j] != *id,
        decreases ids@.len() - i,
    {
        if ids[i].equals(id) {
            assert(ids@[i as int] == *id);
            return true;
        }
        i = i + 1;
    }
    false
}

/// Keeps the routes whose next hop is a partner with a channel in the token
/// network that is not blacklisted.
pub fn filter_acceptable_routes(
    route_states: Vec<RouteState>,
    blacklisted_channel_ids: Vec<ChannelIdentifier>,
    addresses_to_channels: LinearMap<ChannelKey, &ChannelState>,
    token_network_address: TokenNetworkAddress,
    our_address: Address,
) -> (r: Vec<RouteState>)
    ensures
        ({
            let positions = spec_acceptable_positions(
                route_states@,
                blacklisted_channel_ids@,
                addresses_to_channels@,
                token_network_address,
                our_address,
            );
            &&& r@.len() == positions.len()
            &&& forall|k: int| 0 <= k < r@.len() ==> #[trigger] r@[k] == route_states@[positions[k]]
        }),
{
    let ghost initial = route_states@;
    let ghost bl = blacklisted_channel_ids@;
    let ghost channels = addresses_to_channels@;
    let mut remaining = route_states;
    let mut acceptable_routes: Vec<RouteState> = Vec::new();
    let n = remaining.len();
    let mut i: usize = 0;
    while i < n
        invariant
            i <= n,
            n == initial.len(),
            bl == blacklisted_channel_ids@,
            channels == addresses_to_channels@,
            remaining@ == initial.subrange(i as int, n as int),
            acceptable_routes@.len() == spec_acceptable_positions(
                initial.take(i as int),
                bl,
                channels,
                token_network_address,
                our_address,
            ).len(),
            forall|k: int|
                0 <= k < acceptable_routes@.len() ==> #[trigger] acceptable_routes@[k]
                    == initial[spec_acceptable_positions(
                    initial.take(i as int),
                    bl,
                    channels,
                    token_network_address,
                    our_address,
                )[k]],
        decreases n - i,
    {
        let route = remaining.remove(0);
        assert(route == initial[i as int]);
        assert(initial.take(i + 1).drop_last() =~= initial.take(i as int));
        assert(remaining@ =~= initial.subrange(i + 1, n as int));
        let next_hop = route.hop_after(our_address);
        let accept = match next_hop {
            Some(next_hop) => match addresses_to_channels.get(
                &ChannelKey { token_network_address, partner_address: next_hop },
            ) {
                Some(channel) => !ids_contain(
                    &blacklisted_channel_ids,
                    &channel.canonical_identifier.channel_identifier,
                ),
                None => false,
            },
            None => false,
        };
        if accept {
            acceptable_routes.push(route);
        }
        i = i + 1;
    }
    assert(initial.take(n as int) =~= initial);
    acceptable_routes
}

/// A copy of a list of addresses.
pub fn copy_addresses(addresses: &Vec<Address>) -> (r: Vec<Address>)
    ensures
        r@ == addresses@,
{
    let mut r: Vec<Address> = Vec::new();
    let mut i: usize = 0;
    while i < addresses.len()
        invariant
            i <= addresses@.len(),
            r@ == addresses@.subrange(0, i as int),
        decreases addresses@.len() - i,
    {
        r.push(addresses[i]);
        assert(r@ =~= addresses@.subrange(0, i + 1));
        i = i + 1;
    }
    assert(addresses@.subrange(0, addresses@.len() as int) =~= addresses@);
    r
}

/// A copy of the metadata of the nodes of a route.
pub fn copy_metadata(m: &LinearMap<Address, AddressMetadata>) -> (r: LinearMap<
    Address,
    AddressMetadata,
>)
    ensures
        r@ == m@,
{
    proof {
        use_type_invariant(m);
    }
    let ghost e = m.entries();
    let mut r = LinearMap::new();
    let n = m.len();
    let mut i: usize = 0;
    while i < n
        invariant
            i <= n,
            n == e.len(),
            e == m.entries(),
            keys_distinct(e),
            r@ == entries_map(e.subrange(0, i as int)),
        decreases n - i,
    {
        let (k, v) = m.entry_at(i);
        let k = *k;
        let v = v.clone();
        proof {
            assert(e.subrange(0, i + 1).drop_last() =~= e.subrange(0, i as int));
            lemma_prefix_distinct(e, i + 1);
            lemma_entries_map_push(e.subrange(0, i + 1));
        }
        r.insert(k, v);
        i = i + 1;
        proof {
            assert(r@ =~= entries_map(e.subrange(0, i as int)));
        }
    }
    proof {
        assert(e.subrange(0, n as int) =~= e);
    }
    r
}

/// `new` holds what `old` holds: the same nodes, metadata, swaps and fee.
pub open spec fn spec_route_copy(new: RouteState, old: RouteState) -> bool {
    &&& new.route@ == old.route@
    &&& new.address_to_metadata@ == old.address_to_metadata@
    &&& new.swaps@ == old.swaps@
    &&& new.estimated_fee == old.estimated_fee
}

/// A copy of a route.
pub fn copy_route(route_state: &RouteState) -> (r: RouteState)
    ensures
        spec_route_copy(r, *route_state),
{
    let mut swaps = LinearMap::new();
    swaps.insert_all(&route_state.swaps);
    assert(swaps@ =~= route_state.swaps@);
    RouteState {
        route: copy_addresses(&route_state.route),
        address_to_metadata: copy_metadata(&route_state.address_to_metadata),
        swaps,
        estimated_fee: route_state.estimated_fee,
    }
}

} // verus!
