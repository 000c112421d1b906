//! Views over channel states: balances, distributable amounts and metadata.
use vstd::prelude::*;

use crate::map::LinearMap;
use crate::routes::ChannelKey;
use crate::primitives::{u256_max, Address, U256};
use crate::types::state::{
    AddressMetadata, CanonicalIdentifier, ChainState, ChannelEndState, ChannelState, ChannelStatus,
    RouteState, TokenAddress, TokenAmount, TokenNetworkAddress, TokenNetworkRegistryState,
    TokenNetworkState,
};

verus! {

/// The locked amount that the latest balance proof of `e` declares, or zero.
pub open spec fn spec_bp_locked(e: &ChannelEndState) -> nat {
    match e.balance_proof {
        Some(bp) => bp.locked_amount@,
        None => 0,
    }
}

/// The balance of `sender`: its deposit plus what it received, minus what
/// it withdrew and what it sent.
pub open spec fn spec_channel_balance(sender: &ChannelEndState, receiver: &ChannelEndState) -> int {
    sender.contract_balance@ + receiver.spec_transferred() - sender.spec_total_withdraw()
        - sender.spec_transferred()
}

/// The computation of the balance neither overflows nor goes negative.
pub open spec fn spec_balance_defined(sender: &ChannelEndState, receiver: &ChannelEndState) -> bool {
    &&& sender.contract_balance@ + receiver.spec_transferred() <= u256_max()
    &&& sender.contract_balance@ + receiver.spec_transferred() >= sender.spec_total_withdraw()
        + sender.spec_transferred()
}

/// Returns the total balance of the sender's state of a channel.
pub fn channel_balance(sender: &ChannelEndState, receiver: &ChannelEndState) -> (r: U256)
    requires
        spec_balance_defined(sender, receiver),
    ensures
        r@ == spec_channel_balance(sender, receiver),
{
    let mut sender_transferred_amount = U256::zero();
    let mut receiver_transferred_amount = U256::zero();
    if let Some(balance_proof) = &sender.balance_proof {
        sender_transferred_amount = balance_proof.transferred_amount;
    }
    if let Some(balance_proof) = &receiver.balance_proof {
        receiver_transferred_amount = balance_proof.transferred_amount;
    }
    let withdraw = sender.offchain_total_withdraw().max(sender.onchain_total_withdraw);
    sender.contract_balance.add(receiver_transferred_amount).sub(withdraw).sub(
        sender_transferred_amount,
    )
}

/// The amount the sender can still lock: its balance minus its locks,
/// capped so that a new balance proof does not overflow.
pub open spec fn spec_channel_distributable(
    sender: &ChannelEndState,
    receiver: &ChannelEndState,
) -> nat {
    let distributable = spec_channel_balance(sender, receiver) - sender.spec_locked_amount();
    let limit = u256_max() - sender.spec_transferred() - spec_bp_locked(sender);
    if limit <= distributable {
        limit as nat
    } else {
        distributable as nat
    }
}

/// The computation of the distributable amount neither overflows nor goes
/// negative.
pub open spec fn spec_distributable_defined(
    sender: &ChannelEndState,
    receiver: &ChannelEndState,
) -> bool {
    &&& spec_balance_defined(sender, receiver)
    &&& sender.spec_locked_amount() <= u256_max()
    &&& spec_channel_balance(sender, receiver) >= sender.spec_locked_amount()
    &&& sender.spec_transferred() + spec_bp_locked(sender) <= u256_max()
}

/// Return the total distributable amount of a channel state.
pub fn channel_distributable(sender: &ChannelEndState, receiver: &ChannelEndState) -> (r:
    TokenAmount)
    requires
        spec_distributable_defined(sender, receiver),
    ensures
        r@ == spec_channel_distributable(sender, receiver),
{
    let (_, _, transferred_amount, locked_amount) = sender.get_current_balanceproof();
    let distributable = channel_balance(sender, receiver).sub(sender.locked_amount());
    let overflow_limit = U256::max_value().sub(transferred_amount).sub(locked_amount);
    overflow_limit.min(distributable)
}

/// The metadata of `address` in the first route that has some.
pub open spec fn spec_address_metadata(address: Address, routes: Seq<RouteState>) -> Option<
    AddressMetadata,
>
    decreases routes.len(),
{
    if routes.len() == 0 {
        None
    } else if routes[0].address_to_metadata@.contains_key(address) {
        Some(routes[0].address_to_metadata@[address])
    } else {
        spec_address_metadata(address, routes.drop_first())
    }
}

/// Returns address metadata.
pub fn get_address_metadata(recipient_address: Address, route_states: &Vec<RouteState>) -> (r:
    Option<AddressMetadata>)
    ensures
        r == spec_address_metadata(recipient_address, route_states@),
{
    let mut i: usize = 0;
    assert(route_states@.subrange(0, route_states@.len() as int) =~= route_states@);
    while i < route_states.len()
        invariant
            i <= route_states@.len(),
            spec_address_metadata(recipient_address, route_states@) == spec_address_metadata(
                recipient_address,
                route_states@.subrange(i as int, route_states@.len() as int),
            ),
        decreases route_states@.len() - i,
    {
        let rs = &route_states[i];
        proof {
            let s = route_states@.subrange(i as int, route_states@.len() as int);
            assert(s[0] == route_states@[i as int]);
            assert(s.drop_first() =~= route_states@.subrange(i + 1, route_states@.len() as int));
        }
        match rs.address_to_metadata.get(&recipient_address) {
            Some(metadata) => {
                return Some(metadata.clone());
            },
            None => {},
        }
        i = i + 1;
    }
    None
}


/// The registries of a chain state, in the order they were added.
pub open spec fn spec_registries(chain_state: &ChainState) -> Seq<(Address, TokenNetworkRegistryState)> {
    chain_state.identifiers_to_tokennetworkregistries.entries()
}

/// The first token network of `s` whose address is `address`.
pub open spec fn spec_find_network(s: Seq<(Address, TokenNetworkState)>, address: Address) -> Option<
    TokenNetworkState,
>
    decreases s.len(),
{
    if s.len() == 0 {
        None
    } else if s[0].1.address == address {
        Some(s[0].1)
    } else {
        spec_find_network(s.drop_first(), address)
    }
}

/// The first token network of `s` whose token is `token_address`.
pub open spec fn spec_find_network_by_token(
    s: Seq<(Address, TokenNetworkState)>,
    token_address: Address,
) -> Option<TokenNetworkState>
    decreases s.len(),
{
    if s.len() == 0 {
        None
    } else if s[0].1.token_address == token_address {
        Some(s[0].1)
    } else {
        spec_find_network_by_token(s.drop_first(), token_address)
    }
}

/// The first token network with address `address`, going through the
/// registries in order and through the networks of each in order.
pub open spec fn spec_network_in_registries(
    regs: Seq<(Address, TokenNetworkRegistryState)>,
    address: Address,
) -> Option<TokenNetworkState>
    decreases regs.len(),
{
    if regs.len() == 0 {
        None
    } else {
        match spec_find_network(regs[0].1.tokennetworkaddresses_to_tokennetworks.entries(), address) {
            Some(t) => Some(t),
            None => spec_network_in_registries(regs.drop_first(), address),
        }
    }
}

/// The first registry that holds a token network under `address`.
pub open spec fn spec_registry_of_network(
    regs: Seq<(Address, TokenNetworkRegistryState)>,
    address: Address,
) -> Option<TokenNetworkRegistryState>
    decreases regs.len(),
{
    if regs.len() == 0 {
        None
    } else if regs[0].1.tokennetworkaddresses_to_tokennetworks@.contains_key(address) {
        Some(regs[0].1)
    } else {
        spec_registry_of_network(regs.drop_first(), address)
    }
}

/// The position, from `k` on, of the first registry that holds a token
/// network under `address`.
pub open spec fn spec_registry_index_from(
    regs: Seq<(Address, TokenNetworkRegistryState)>,
    address: Address,
    k: int,
) -> Option<int>
    decreases regs.len() - k,
{
    if k < 0 || k >= regs.len() {
        None
    } else if regs[k].1.tokennetworkaddresses_to_tokennetworks@.contains_key(address) {
        Some(k)
    } else {
        spec_registry_index_from(regs, address, k + 1)
    }
}

/// The registry that `spec_registry_index_from` finds holds a network under
/// the address, and lies at or after `k`.
pub proof fn lemma_registry_index_holds(regs: Seq<(Address, TokenNetworkRegistryState)>, address: Address, k: int)
    requires
        spec_registry_index_from(regs, address, k) is Some,
    ensures
        ({
            let i = spec_registry_index_from(regs, address, k)->Some_0;
            &&& k <= i < regs.len()
            &&& regs[i].1.tokennetworkaddresses_to_tokennetworks@.contains_key(address)
        }),
    decreases regs.len() - k,
{
    if k >= 0 && k < regs.len() && !regs[k].1.tokennetworkaddresses_to_tokennetworks@.contains_key(address) {
        lemma_registry_index_holds(regs, address, k + 1);
    }
}

/// The token network held under `address` by the first registry that holds
/// one.
pub open spec fn spec_registry_network(
    regs: Seq<(Address, TokenNetworkRegistryState)>,
    address: Address,
) -> Option<TokenNetworkState> {
    match spec_registry_index_from(regs, address, 0) {
        Some(i) => Some(regs[i].1.tokennetworkaddresses_to_tokennetworks@[address]),
        None => None,
    }
}

/// The first channel of `s` whose partner is `partner`.
pub open spec fn spec_find_channel_by_partner(s: Seq<(U256, ChannelState)>, partner: Address) -> Option<
    ChannelState,
>
    decreases s.len(),
{
    if s.len() == 0 {
        None
    } else if s[0].1.partner_state.address == partner {
        Some(s[0].1)
    } else {
        spec_find_channel_by_partner(s.drop_first(), partner)
    }
}

/// `r` is the reference that `o` names, or none where `o` is none.
pub open spec fn spec_ref_matches<T>(r: Option<&T>, o: Option<T>) -> bool {
    &&& r.is_some() == o.is_some()
    &&& r.is_some() ==> *r.unwrap() == o.unwrap()
}

fn find_network<'a>(m: &'a LinearMap<Address, TokenNetworkState>, address: Address) -> (r: Option<
    &'a TokenNetworkState,
>)
    ensures
        spec_ref_matches(r, spec_find_network(m.entries(), address)),
{
    let ghost s = m.entries();
    let mut i: usize = 0;
    assert(s.subrange(0, s.len() as int) =~= s);
    while i < m.len()
        invariant
            i <= s.len(),
            s == m.entries(),
            spec_find_network(s, address) == spec_find_network(s.subrange(i as int, s.len() as int), address),
        decreases s.len() - i,
    {
        let (_, tn) = m.entry_at(i);
        proof {
            let t = s.subrange(i as int, s.len() as int);
            assert(t[0] == s[i as int]);
            assert(t.drop_first() =~= s.subrange(i + 1, s.len() as int));
        }
        if tn.address.equals(&address) {
            return Some(tn);
        }
        i = i + 1;
    }
    None
}

fn find_network_by_token<'a>(m: &'a LinearMap<Address, TokenNetworkState>, token_address: Address) -> (r: Option<
    &'a TokenNetworkState,
>)
    ensures
        spec_ref_matches(r, spec_find_network_by_token(m.entries(), token_address)),
{
    let ghost s = m.entries();
    let mut i: usize = 0;
    assert(s.subrange(0, s.len() as int) =~= s);
    while i < m.len()
        invariant
            i <= s.len(),
            s == m.entries(),
            spec_find_network_by_token(s, token_address) == spec_find_network_by_token(
                s.subrange(i as int, s.len() as int),
                token_address,
            ),
        decreases s.len() - i,
    {
        let (_, tn) = m.entry_at(i);
        proof {
            let t = s.subrange(i as int, s.len() as int);
            assert(t[0] == s[i as int]);
            assert(t.drop_first() =~= s.subrange(i + 1, s.len() as int));
        }
        if tn.token_address.equals(&token_address) {
            return Some(tn);
        }
        i = i + 1;
    }
    None
}

fn find_channel_by_partner<'a>(m: &'a LinearMap<U256, ChannelState>, partner: Address) -> (r: Option<
    &'a ChannelState,
>)
    ensures
        spec_ref_matches(r, spec_find_channel_by_partner(m.entries(), partner)),
{
    let ghost s = m.entries();
    let mut i: usize = 0;
    assert(s.subrange(0, s.len() as int) =~= s);
    while i < m.len()
        invariant
            i <= s.len(),
            s == m.entries(),
            spec_find_channel_by_partner(s, partner) == spec_find_channel_by_partner(
                s.subrange(i as int, s.len() as int),
                partner,
            ),
        decreases s.len() - i,
    {
        let (_, c) = m.entry_at(i);
        proof {
            let t = s.subrange(i as int, s.len() as int);
            assert(t[0] == s[i as int]);
            assert(t.drop_first() =~= s.subrange(i + 1, s.len() as int));
        }
        if c.partner_state.address.equals(&partner) {
            return Some(c);
        }
        i = i + 1;
    }
    None
}

/// Finds the position of the first registry that holds a token network
/// under `address`.
pub fn find_registry_index(chain_state: &ChainState, address: &Address) -> (r: Option<usize>)
    ensures
        match spec_registry_index_from(spec_registries(chain_state), *address, 0) {
            Some(i) => r.is_some() && r.unwrap() as int == i && 0 <= i < spec_registries(chain_state).len(),
            None => r.is_none(),
        },
{
    let registries = &chain_state.identifiers_to_tokennetworkregistries;
    let ghost s = registries.entries();
    let mut i: usize = 0;
    while i < registries.len()
        invariant
            i <= s.len(),
            s == registries.entries(),
            s == spec_registries(chain_state),
            spec_registry_index_from(s, *address, 0) == spec_registry_index_from(s, *address, i as int),
        decreases s.len() - i,
    {
        let (_, registry) = registries.entry_at(i);
        if registry.tokennetworkaddresses_to_tokennetworks.contains_key(address) {
            return Some(i);
        }
        i = i + 1;
    }
    None
}

/// Returns token network by address if found: the first registry that
/// holds one under the address gives it.
pub fn get_token_network<'a>(chain_state: &'a ChainState, token_network_address: &Address) -> (r:
    Option<&'a TokenNetworkState>)
    ensures
        spec_ref_matches(r, spec_registry_network(spec_registries(chain_state), *token_network_address)),
{
    match find_registry_index(chain_state, token_network_address) {
        Some(i) => {
            let (_, registry) = chain_state.identifiers_to_tokennetworkregistries.entry_at(i);
            proof {
                lemma_registry_index_holds(spec_registries(chain_state), *token_network_address, 0);
            }
            registry.tokennetworkaddresses_to_tokennetworks.get(token_network_address)
        },
        None => None,
    }
}

/// Returns token network registry by token network address if found.
pub fn get_token_network_registry_by_token_network_address(
    chain_state: &ChainState,
    token_network_address: TokenNetworkAddress,
) -> (r: Option<&TokenNetworkRegistryState>)
    ensures
        spec_ref_matches(r, spec_registry_of_network(spec_registries(chain_state), token_network_address)),
{
    let registries = &chain_state.identifiers_to_tokennetworkregistries;
    let ghost s = registries.entries();
    let mut i: usize = 0;
    assert(s.subrange(0, s.len() as int) =~= s);
    while i < registries.len()
        invariant
            i <= s.len(),
            s == registries.entries(),
            s == spec_registries(chain_state),
            spec_registry_of_network(s, token_network_address) == spec_registry_of_network(
                s.subrange(i as int, s.len() as int),
                token_network_address,
            ),
        decreases s.len() - i,
    {
        let (_, registry) = registries.entry_at(i);
        proof {
            let t = s.subrange(i as int, s.len() as int);
            assert(t[0] == s[i as int]);
            assert(t.drop_first() =~= s.subrange(i + 1, s.len() as int));
        }
        if registry.tokennetworkaddresses_to_tokennetworks.contains_key(&token_network_address) {
            return Some(registry);
        }
        i = i + 1;
    }
    None
}

/// Returns token network by address if found.
pub fn get_token_network_by_address(
    chain_state: &ChainState,
    token_network_address: TokenNetworkAddress,
) -> (r: Option<&TokenNetworkState>)
    ensures
        spec_ref_matches(r, spec_network_in_registries(spec_registries(chain_state), token_network_address)),
{
    let registries = &chain_state.identifiers_to_tokennetworkregistries;
    let ghost s = registries.entries();
    let mut i: usize = 0;
    assert(s.subrange(0, s.len() as int) =~= s);
    while i < registries.len()
        invariant
            i <= s.len(),
            s == registries.entries(),
            s == spec_registries(chain_state),
            spec_network_in_registries(s, token_network_address) == spec_network_in_registries(
                s.subrange(i as int, s.len() as int),
                token_network_address,
            ),
        decreases s.len() - i,
    {
        let (_, registry) = registries.entry_at(i);
        proof {
            let t = s.subrange(i as int, s.len() as int);
            assert(t[0] == s[i as int]);
            assert(t.drop_first() =~= s.subrange(i + 1, s.len() as int));
        }
        match find_network(&registry.tokennetworkaddresses_to_tokennetworks, token_network_address) {
            Some(tn) => {
                return Some(tn);
            },
            None => {},
        }
        i = i + 1;
    }
    None
}

/// The token network of `token_address` in the registry `registry_address`.
pub open spec fn spec_network_by_token(
    chain_state: &ChainState,
    registry_address: Address,
    token_address: TokenAddress,
) -> Option<TokenNetworkState> {
    let regs = chain_state.identifiers_to_tokennetworkregistries@;
    if regs.contains_key(registry_address) {
        spec_find_network_by_token(
            regs[registry_address].tokennetworkaddresses_to_tokennetworks.entries(),
            token_address,
        )
    } else {
        None
    }
}

/// Returns token network by token address if found.
pub fn get_token_network_by_token_address(
    chain_state: &ChainState,
    registry_address: Address,
    token_address: TokenAddress,
) -> (r: Option<&TokenNetworkState>)
    ensures
        spec_ref_matches(r, spec_network_by_token(chain_state, registry_address, token_address)),
{
    let token_network_registry = match chain_state.identifiers_to_tokennetworkregistries.get(
        &registry_address,
    ) {
        Some(tnr) => tnr,
        None => return None,
    };
    find_network_by_token(&token_network_registry.tokennetworkaddresses_to_tokennetworks, token_address)
}

/// The channel with identifier `canonical_identifier` in the token network
/// that `spec_network_in_registries` finds.
pub open spec fn spec_channel_by_canonical_identifier(
    chain_state: &ChainState,
    canonical_identifier: CanonicalIdentifier,
) -> Option<ChannelState> {
    match spec_network_in_registries(
        spec_registries(chain_state),
        canonical_identifier.token_network_address,
    ) {
        Some(tn) => {
            let channels = tn.channelidentifiers_to_channels@;
            if channels.contains_key(canonical_identifier.channel_identifier) {
                Some(channels[canonical_identifier.channel_identifier])
            } else {
                None
            }
        },
        None => None,
    }
}

/// Returns channel state by canonical identifier if found.
pub fn get_channel_by_canonical_identifier(
    chain_state: &ChainState,
    canonical_identifier: CanonicalIdentifier,
) -> (r: Option<&ChannelState>)
    ensures
        spec_ref_matches(r, spec_channel_by_canonical_identifier(chain_state, canonical_identifier)),
{
    let token_network = get_token_network_by_address(
        chain_state,
        canonical_identifier.token_network_address,
    );
    if let Some(token_network) = token_network {
        return token_network.channelidentifiers_to_channels.get(
            &canonical_identifier.channel_identifier,
        );
    }
    None
}

/// The channel with `partner_address` in the token network that
/// `spec_network_in_registries` finds.
pub open spec fn spec_channel_by_token_network_and_partner(
    chain_state: &ChainState,
    token_network_address: TokenNetworkAddress,
    partner_address: Address,
) -> Option<ChannelState> {
    match spec_network_in_registries(spec_registries(chain_state), token_network_address) {
        Some(tn) => spec_find_channel_by_partner(
            tn.channelidentifiers_to_channels.entries(),
            partner_address,
        ),
        None => None,
    }
}

/// Returns channel by token network address and partner address if found.
pub fn get_channel_by_token_network_and_partner(
    chain_state: &ChainState,
    token_network_address: TokenNetworkAddress,
    partner_address: Address,
) -> (r: Option<&ChannelState>)
    ensures
        spec_ref_matches(
            r,
            spec_channel_by_token_network_and_partner(chain_state, token_network_address, partner_address),
        ),
{
    let token_network = get_token_network_by_address(chain_state, token_network_address);
    if let Some(token_network) = token_network {
        return find_channel_by_partner(&token_network.channelidentifiers_to_channels, partner_address);
    }
    None
}

/// The channel with `partner_address` in the token network of the token.
pub open spec fn spec_channel_state_for(
    chain_state: &ChainState,
    registry_address: Address,
    token_address: TokenAddress,
    partner_address: Address,
) -> Option<ChannelState> {
    match spec_network_by_token(chain_state, registry_address, token_address) {
        Some(tn) => spec_find_channel_by_partner(
            tn.channelidentifiers_to_channels.entries(),
            partner_address,
        ),
        None => None,
    }
}

/// Return channel state for registry, token and partner addresses.
pub fn get_channel_state_for(
    chain_state: &ChainState,
    registry_address: Address,
    token_address: TokenAddress,
    partner_address: Address,
) -> (r: Option<&ChannelState>)
    ensures
        spec_ref_matches(
            r,
            spec_channel_state_for(chain_state, registry_address, token_address, partner_address),
        ),
{
    match get_token_network_by_token_address(chain_state, registry_address, token_address) {
        Some(token_network) => find_channel_by_partner(
            &token_network.channelidentifiers_to_channels,
            partner_address,
        ),
        _ => None,
    }
}


/// The keys of a sequence of entries, in order.
pub open spec fn spec_keys<K, V>(s: Seq<(K, V)>) -> Seq<K> {
    Seq::new(s.len(), |i: int| s[i].0)
}

/// The tokens that the registry `registry_address` knows.
pub open spec fn spec_token_identifiers(chain_state: &ChainState, registry_address: Address) -> Seq<
    Address,
> {
    let regs = chain_state.identifiers_to_tokennetworkregistries@;
    if regs.contains_key(registry_address) {
        spec_keys(regs[registry_address].tokenaddresses_to_tokennetworkaddresses.entries())
    } else {
        Seq::empty()
    }
}

/// Returns known token identifiers.
pub fn get_token_identifiers(chain_state: &ChainState, registry_address: Address) -> (r: Vec<
    Address,
>)
    ensures
        r@ == spec_token_identifiers(chain_state, registry_address),
{
    match chain_state.identifiers_to_tokennetworkregistries.get(&registry_address) {
        Some(registry) => {
            let m = &registry.tokenaddresses_to_tokennetworkaddresses;
            let ghost s = m.entries();
            let mut keys: Vec<Address> = Vec::new();
            let mut i: usize = 0;
            while i < m.len()
                invariant
                    i <= s.len(),
                    s == m.entries(),
                    keys@ == spec_keys(s).subrange(0, i as int),
                decreases s.len() - i,
            {
                let (k, _) = m.entry_at(i);
                keys.push(*k);
                proof {
                    assert(keys@ =~= spec_keys(s).subrange(0, i + 1));
                }
                i = i + 1;
            }
            assert(spec_keys(s).subrange(0, s.len() as int) =~= spec_keys(s));
            keys
        },
        None => Vec::new(),
    }
}

/// The channels of `s` in status `status`, in order.
pub open spec fn spec_channels_with_status(s: Seq<(U256, ChannelState)>, status: ChannelStatus) -> Seq<
    ChannelState,
>
    decreases s.len(),
{
    if s.len() == 0 {
        Seq::empty()
    } else if s.last().1.spec_status() == status {
        spec_channels_with_status(s.drop_last(), status).push(s.last().1)
    } else {
        spec_channels_with_status(s.drop_last(), status)
    }
}

/// `r` holds, in order, references to the channels of `s`.
pub open spec fn spec_refs_match(r: Seq<&ChannelState>, s: Seq<ChannelState>) -> bool {
    &&& r.len() == s.len()
    &&& forall|i: int| 0 <= i < s.len() ==> *r[i] == s[i]
}

/// The channels in status `status` of the token network of the token.
pub open spec fn spec_channelstate_filter(
    chain_state: &ChainState,
    token_network_registry_address: Address,
    token_address: TokenAddress,
    status: ChannelStatus,
) -> Seq<ChannelState> {
    match spec_network_by_token(chain_state, token_network_registry_address, token_address) {
        Some(tn) => spec_channels_with_status(tn.channelidentifiers_to_channels.entries(), status),
        None => Seq::empty(),
    }
}

/// Returns the channels of the token network of the token that are in
/// status `status`.
fn get_channelstate_filter<'a>(
    chain_state: &'a ChainState,
    token_network_registry_address: Address,
    token_address: TokenAddress,
    status: ChannelStatus,
) -> (r: Vec<&'a ChannelState>)
    ensures
        spec_refs_match(
            r@,
            spec_channelstate_filter(chain_state, token_network_registry_address, token_address, status),
        ),
{
    let token_network = match get_token_network_by_token_address(
        chain_state,
        token_network_registry_address,
        token_address,
    ) {
        Some(token_network) => token_network,
        None => return Vec::new(),
    };
    let m = &token_network.channelidentifiers_to_channels;
    let ghost s = m.entries();
    let mut result: Vec<&ChannelState> = Vec::new();
    let mut i: usize = 0;
    while i < m.len()
        invariant
            i <= s.len(),
            s == m.entries(),
            spec_refs_match(result@, spec_channels_with_status(s.subrange(0, i as int), status)),
        decreases s.len() - i,
    {
        let (_, channel_state) = m.entry_at(i);
        proof {
            assert(s.subrange(0, i + 1).drop_last() =~= s.subrange(0, i as int));
            assert(s.subrange(0, i + 1).last() == s[i as int]);
        }
        if channel_state.status() == status {
            result.push(channel_state);
        }
        i = i + 1;
    }
    assert(s.subrange(0, s.len() as int) =~= s);
    result
}

/// Returns open channel states.
pub fn get_channelstate_open<'a>(
    chain_state: &'a ChainState,
    registry_address: Address,
    token_address: TokenAddress,
) -> (r: Vec<&'a ChannelState>)
    ensures
        spec_refs_match(
            r@,
            spec_channelstate_filter(chain_state, registry_address, token_address, ChannelStatus::Opened),
        ),
{
    get_channelstate_filter(chain_state, registry_address, token_address, ChannelStatus::Opened)
}

/// Returns closing channel states.
pub fn get_channelstate_closing<'a>(
    chain_state: &'a ChainState,
    registry_address: Address,
    token_address: TokenAddress,
) -> (r: Vec<&'a ChannelState>)
    ensures
        spec_refs_match(
            r@,
            spec_channelstate_filter(chain_state, registry_address, token_address, ChannelStatus::Closing),
        ),
{
    get_channelstate_filter(chain_state, registry_address, token_address, ChannelStatus::Closing)
}

/// Returns closed channel states.
pub fn get_channelstate_closed<'a>(
    chain_state: &'a ChainState,
    registry_address: Address,
    token_address: TokenAddress,
) -> (r: Vec<&'a ChannelState>)
    ensures
        spec_refs_match(
            r@,
            spec_channelstate_filter(chain_state, registry_address, token_address, ChannelStatus::Closed),
        ),
{
    get_channelstate_filter(chain_state, registry_address, token_address, ChannelStatus::Closed)
}

/// Returns settling channel states.
pub fn get_channelstate_settling<'a>(
    chain_state: &'a ChainState,
    registry_address: Address,
    token_address: TokenAddress,
) -> (r: Vec<&'a ChannelState>)
    ensures
        spec_refs_match(
            r@,
            spec_channelstate_filter(chain_state, registry_address, token_address, ChannelStatus::Settling),
        ),
{
    get_channelstate_filter(chain_state, registry_address, token_address, ChannelStatus::Settling)
}

/// Returns settled channel states.
pub fn get_channelstate_settled<'a>(
    chain_state: &'a ChainState,
    registry_address: Address,
    token_address: TokenAddress,
) -> (r: Vec<&'a ChannelState>)
    ensures
        spec_refs_match(
            r@,
            spec_channelstate_filter(chain_state, registry_address, token_address, ChannelStatus::Settled),
        ),
{
    get_channelstate_filter(chain_state, registry_address, token_address, ChannelStatus::Settled)
}


/// The channels of a sequence of entries, in order.
pub open spec fn spec_values(s: Seq<(U256, ChannelState)>) -> Seq<ChannelState> {
    Seq::new(s.len(), |i: int| s[i].1)
}

/// The channels of the token networks of `tns`, network after network.
pub open spec fn spec_network_channels(tns: Seq<(Address, TokenNetworkState)>) -> Seq<ChannelState>
    decreases tns.len(),
{
    if tns.len() == 0 {
        Seq::empty()
    } else {
        spec_network_channels(tns.drop_last()) + spec_values(
            tns.last().1.channelidentifiers_to_channels.entries(),
        )
    }
}

/// The channels of the registries of `regs`, registry after registry.
pub open spec fn spec_all_channels(regs: Seq<(Address, TokenNetworkRegistryState)>) -> Seq<ChannelState>
    decreases regs.len(),
{
    if regs.len() == 0 {
        Seq::empty()
    } else {
        spec_all_channels(regs.drop_last()) + spec_network_channels(
            regs.last().1.tokennetworkaddresses_to_tokennetworks.entries(),
        )
    }
}

/// `new` is `old` followed by references to the channels of `added`.
pub open spec fn spec_refs_extended(new: Seq<&ChannelState>, old: Seq<&ChannelState>, added: Seq<ChannelState>) -> bool {
    &&& new.len() == old.len() + added.len()
    &&& forall|i: int| 0 <= i < old.len() ==> new[i] == old[i]
    &&& forall|j: int| 0 <= j < added.len() ==> *new[old.len() + j] == added[j]
}

proof fn lemma_refs_extended(new: Seq<&ChannelState>, old: Seq<&ChannelState>, prev: Seq<ChannelState>, added: Seq<ChannelState>)
    requires
        spec_refs_match(old, prev),
        spec_refs_extended(new, old, added),
    ensures
        spec_refs_match(new, prev + added),
{
    assert forall|i: int| 0 <= i < (prev + added).len() implies *new[i] == (prev + added)[i] by {
        if i < prev.len() {
        } else {
            assert(*new[old.len() + (i - old.len())] == added[i - old.len()]);
        }
    }
}

proof fn lemma_refs_extended_trans(
    a: Seq<&ChannelState>,
    b: Seq<&ChannelState>,
    c: Seq<&ChannelState>,
    x: Seq<ChannelState>,
    y: Seq<ChannelState>,
)
    requires
        spec_refs_extended(b, a, x),
        spec_refs_extended(c, b, y),
    ensures
        spec_refs_extended(c, a, x + y),
{
    assert forall|j: int| 0 <= j < (x + y).len() implies *c[a.len() + j] == (x + y)[j] by {
        if j < x.len() {
            assert(c[a.len() + j] == b[a.len() + j]);
        } else {
            assert(*c[b.len() + (j - x.len())] == y[j - x.len()]);
        }
    }
}

fn push_channels<'a>(out: &mut Vec<&'a ChannelState>, m: &'a LinearMap<U256, ChannelState>)
    ensures
        spec_refs_extended(final(out)@, old(out)@, spec_values(m.entries())),
{
    let ghost s = m.entries();
    let ghost start = out@;
    let mut i: usize = 0;
    while i < m.len()
        invariant
            i <= s.len(),
            s == m.entries(),
            spec_refs_extended(out@, start, spec_values(s).subrange(0, i as int)),
        decreases s.len() - i,
    {
        let (_, c) = m.entry_at(i);
        out.push(c);
        proof {
            let v = spec_values(s);
            assert(v.subrange(0, i + 1) =~= v.subrange(0, i as int).push(s[i as int].1));
        }
        i = i + 1;
    }
    assert(spec_values(s).subrange(0, s.len() as int) =~= spec_values(s));
}

fn push_network_channels<'a>(out: &mut Vec<&'a ChannelState>, m: &'a LinearMap<Address, TokenNetworkState>)
    ensures
        spec_refs_extended(final(out)@, old(out)@, spec_network_channels(m.entries())),
{
    let ghost s = m.entries();
    let ghost start = out@;
    let mut i: usize = 0;
    assert(s.subrange(0, 0) =~= Seq::<(Address, TokenNetworkState)>::empty());
    while i < m.len()
        invariant
            i <= s.len(),
            s == m.entries(),
            spec_refs_extended(out@, start, spec_network_channels(s.subrange(0, i as int))),
        decreases s.len() - i,
    {
        let (_, tn) = m.entry_at(i);
        let ghost before = out@;
        push_channels(out, &tn.channelidentifiers_to_channels);
        proof {
            assert(s.subrange(0, i + 1).drop_last() =~= s.subrange(0, i as int));
            assert(s.subrange(0, i + 1).last() == s[i as int]);
            lemma_refs_extended_trans(
                start,
                before,
                out@,
                spec_network_channels(s.subrange(0, i as int)),
                spec_values(tn.channelidentifiers_to_channels.entries()),
            );
        }
        i = i + 1;
    }
    assert(s.subrange(0, s.len() as int) =~= s);
}

/// Returns all channel states.
pub fn get_channels(chain_state: &ChainState) -> (r: Vec<&ChannelState>)
    ensures
        spec_refs_match(r@, spec_all_channels(spec_registries(chain_state))),
{
    let m = &chain_state.identifiers_to_tokennetworkregistries;
    let ghost s = m.entries();
    let mut channels: Vec<&ChannelState> = Vec::new();
    let mut i: usize = 0;
    assert(s.subrange(0, 0) =~= Seq::<(Address, TokenNetworkRegistryState)>::empty());
    while i < m.len()
        invariant
            i <= s.len(),
            s == m.entries(),
            s == spec_registries(chain_state),
            spec_refs_match(channels@, spec_all_channels(s.subrange(0, i as int))),
        decreases s.len() - i,
    {
        let (_, registry) = m.entry_at(i);
        let ghost before = channels@;
        push_network_channels(&mut channels, &registry.tokennetworkaddresses_to_tokennetworks);
        proof {
            assert(s.subrange(0, i + 1).drop_last() =~= s.subrange(0, i as int));
            assert(s.subrange(0, i + 1).last() == s[i as int]);
            lemma_refs_extended(
                channels@,
                before,
                spec_all_channels(s.subrange(0, i as int)),
                spec_network_channels(registry.tokennetworkaddresses_to_tokennetworks.entries()),
            );
        }
        i = i + 1;
    }
    assert(s.subrange(0, s.len() as int) =~= s);
    channels
}


/// `m` with each channel of `s` entered under its token network and
/// partner; a later channel replaces an earlier one of the same key.
pub open spec fn spec_insert_channels<'a>(
    m: Map<ChannelKey, &'a ChannelState>,
    token_network_address: TokenNetworkAddress,
    s: Seq<(U256, ChannelState)>,
) -> Map<ChannelKey, &'a ChannelState>
    decreases s.len(),
{
    if s.len() == 0 {
        m
    } else {
        spec_insert_channels(m, token_network_address, s.drop_last()).insert(
            ChannelKey {
                token_network_address,
                partner_address: s.last().1.partner_state.address,
            },
            &s.last().1,
        )
    }
}

/// `m` with the channels of each token network of `tns` entered.
pub open spec fn spec_insert_networks<'a>(
    m: Map<ChannelKey, &'a ChannelState>,
    tns: Seq<(Address, TokenNetworkState)>,
) -> Map<ChannelKey, &'a ChannelState>
    decreases tns.len(),
{
    if tns.len() == 0 {
        m
    } else {
        spec_insert_channels(
            spec_insert_networks(m, tns.drop_last()),
            tns.last().1.address,
            tns.last().1.channelidentifiers_to_channels.entries(),
        )
    }
}

/// `m` with the channels of each registry of `regs` entered.
pub open spec fn spec_insert_registries<'a>(
    m: Map<ChannelKey, &'a ChannelState>,
    regs: Seq<(Address, TokenNetworkRegistryState)>,
) -> Map<ChannelKey, &'a ChannelState>
    decreases regs.len(),
{
    if regs.len() == 0 {
        m
    } else {
        spec_insert_networks(
            spec_insert_registries(m, regs.drop_last()),
            regs.last().1.tokennetworkaddresses_to_tokennetworks.entries(),
        )
    }
}

fn insert_channels<'a>(
    out: &mut LinearMap<ChannelKey, &'a ChannelState>,
    token_network_address: TokenNetworkAddress,
    m: &'a LinearMap<U256, ChannelState>,
)
    ensures
        final(out)@ == spec_insert_channels(old(out)@, token_network_address, m.entries()),
{
    let ghost s = m.entries();
    let ghost start = out@;
    let mut i: usize = 0;
    assert(s.subrange(0, 0) =~= Seq::<(U256, ChannelState)>::empty());
    while i < m.len()
        invariant
            i <= s.len(),
            s == m.entries(),
            out@ == spec_insert_channels(start, token_network_address, s.subrange(0, i as int)),
        decreases s.len() - i,
    {
        let (_, channel) = m.entry_at(i);
        out.insert(
            ChannelKey { token_network_address, partner_address: channel.partner_state.address },
            channel,
        );
        proof {
            assert(s.subrange(0, i + 1).drop_last() =~= s.subrange(0, i as int));
            assert(s.subrange(0, i + 1).last() == s[i as int]);
        }
        i = i + 1;
    }
    assert(s.subrange(0, s.len() as int) =~= s);
}

fn insert_networks<'a>(
    out: &mut LinearMap<ChannelKey, &'a ChannelState>,
    m: &'a LinearMap<Address, TokenNetworkState>,
)
    ensures
        final(out)@ == spec_insert_networks(old(out)@, m.entries()),
{
    let ghost s = m.entries();
    let ghost start = out@;
    let mut i: usize = 0;
    assert(s.subrange(0, 0) =~= Seq::<(Address, TokenNetworkState)>::empty());
    while i < m.len()
        invariant
            i <= s.len(),
            s == m.entries(),
            out@ == spec_insert_networks(start, s.subrange(0, i as int)),
        decreases s.len() - i,
    {
        let (_, tn) = m.entry_at(i);
        insert_channels(out, tn.address, &tn.channelidentifiers_to_channels);
        proof {
            assert(s.subrange(0, i + 1).drop_last() =~= s.subrange(0, i as int));
            assert(s.subrange(0, i + 1).last() == s[i as int]);
        }
        i = i + 1;
    }
    assert(s.subrange(0, s.len() as int) =~= s);
}

/// Returns a map of (token network, partner addresses) to channels
pub fn get_addresses_to_channels(chain_state: &ChainState) -> (r: LinearMap<
    ChannelKey,
    &ChannelState,
>)
    ensures
        r@ == spec_insert_registries(Map::empty(), spec_registries(chain_state)),
{
    let m = &chain_state.identifiers_to_tokennetworkregistries;
    let ghost s = m.entries();
    let mut channels: LinearMap<ChannelKey, &ChannelState> = LinearMap::new();
    let mut i: usize = 0;
    assert(s.subrange(0, 0) =~= Seq::<(Address, TokenNetworkRegistryState)>::empty());
    while i < m.len()
        invariant
            i <= s.len(),
            s == m.entries(),
            s == spec_registries(chain_state),
            channels@ == spec_insert_registries(Map::empty(), s.subrange(0, i as int)),
        decreases s.len() - i,
    {
        let (_, registry) = m.entry_at(i);
        insert_networks(&mut channels, &registry.tokennetworkaddresses_to_tokennetworks);
        proof {
            assert(s.subrange(0, i + 1).drop_last() =~= s.subrange(0, i as int));
            assert(s.subrange(0, i + 1).last() == s[i as int]);
        }
        i = i + 1;
    }
    assert(s.subrange(0, s.len() as int) =~= s);
    channels
}

/// The usable channels among those of `ids` in the token network.
pub open spec fn spec_partner_channels(tn: TokenNetworkState, ids: Seq<U256>) -> Seq<ChannelState>
    decreases ids.len(),
{
    if ids.len() == 0 {
        Seq::empty()
    } else {
        let rest = spec_partner_channels(tn, ids.drop_last());
        let channels = tn.channelidentifiers_to_channels@;
        if channels.contains_key(ids.last()) && channels[ids.last()].spec_status()
            != ChannelStatus::Unusable {
            rest.push(channels[ids.last()])
        } else {
            rest
        }
    }
}

/// The usable channels with the partners of `partners`, partner after
/// partner.
pub open spec fn spec_partners_channels(tn: TokenNetworkState, partners: Seq<Address>) -> Seq<
    ChannelState,
>
    decreases partners.len(),
{
    if partners.len() == 0 {
        Seq::empty()
    } else {
        let p2c = tn.partneraddresses_to_channelidentifiers@;
        spec_partners_channels(tn, partners.drop_last()) + if p2c.contains_key(partners.last()) {
            spec_partner_channels(tn, p2c[partners.last()]@)
        } else {
            Seq::empty()
        }
    }
}

/// The usable channels with the partners of `partners` in the token network
/// of the token.
pub open spec fn spec_filter_channels_by_partner(
    chain_state: &ChainState,
    registry_address: Address,
    token_address: TokenAddress,
    partners: Seq<Address>,
) -> Seq<ChannelState> {
    match spec_network_by_token(chain_state, registry_address, token_address) {
        Some(tn) => spec_partners_channels(tn, partners),
        None => Seq::empty(),
    }
}

fn push_partner_channels<'a>(out: &mut Vec<&'a ChannelState>, tn: &'a TokenNetworkState, ids: &Vec<U256>)
    ensures
        spec_refs_extended(final(out)@, old(out)@, spec_partner_channels(*tn, ids@)),
{
    let ghost start = out@;
    let mut i: usize = 0;
    assert(ids@.subrange(0, 0) =~= Seq::<U256>::empty());
    while i < ids.len()
        invariant
            i <= ids@.len(),
            spec_refs_extended(out@, start, spec_partner_channels(*tn, ids@.subrange(0, i as int))),
        decreases ids@.len() - i,
    {
        let id = &ids[i];
        proof {
            assert(ids@.subrange(0, i + 1).drop_last() =~= ids@.subrange(0, i as int));
            assert(ids@.subrange(0, i + 1).last() == ids@[i as int]);
        }
        if let Some(channel_state) = tn.channelidentifiers_to_channels.get(id) {
            if channel_state.status() != ChannelStatus::Unusable {
                out.push(channel_state);
            }
        }
        i = i + 1;
    }
    assert(ids@.subrange(0, ids@.len() as int) =~= ids@);
}

/// Filters channels by partner address
pub fn filter_channels_by_partner_address<'a>(
    chain_state: &'a ChainState,
    registry_address: TokenNetworkAddress,
    token_address: TokenAddress,
    partner_addresses: Vec<Address>,
) -> (r: Vec<&'a ChannelState>)
    ensures
        spec_refs_match(
            r@,
            spec_filter_channels_by_partner(chain_state, registry_address, token_address, partner_addresses@),
        ),
{
    let token_network = match get_token_network_by_token_address(
        chain_state,
        registry_address,
        token_address,
    ) {
        Some(token_network) => token_network,
        None => return Vec::new(),
    };
    let ghost partners = partner_addresses@;
    let mut channels: Vec<&ChannelState> = Vec::new();
    let mut i: usize = 0;
    assert(partners.subrange(0, 0) =~= Seq::<Address>::empty());
    while i < partner_addresses.len()
        invariant
            i <= partners.len(),
            partners == partner_addresses@,
            spec_refs_match(channels@, spec_partners_channels(*token_network, partners.subrange(0, i as int))),
        decreases partners.len() - i,
    {
        let partner = &partner_addresses[i];
        let ghost before = channels@;
        proof {
            assert(partners.subrange(0, i + 1).drop_last() =~= partners.subrange(0, i as int));
            assert(partners.subrange(0, i + 1).last() == partners[i as int]);
        }
        if let Some(channels_identifiers) = token_network.partneraddresses_to_channelidentifiers.get(partner) {
            push_partner_channels(&mut channels, token_network, channels_identifiers);
            proof {
                lemma_refs_extended(
                    channels@,
                    before,
                    spec_partners_channels(*token_network, partners.subrange(0, i as int)),
                    spec_partner_channels(*token_network, channels_identifiers@),
                );
            }
        } else {
            assert(spec_partners_channels(*token_network, partners.subrange(0, i as int)) + Seq::empty()
                =~= spec_partners_channels(*token_network, partners.subrange(0, i as int)));
        }
        i = i + 1;
    }
    assert(partners.subrange(0, partners.len() as int) =~= partners);
    channels
}

} // verus!
