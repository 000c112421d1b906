//! What single operations are for, stated over their inputs and results:
//! the fee limit of a route, the balance check of a withdraw request, the
//! effect of a deposit, the routes that are kept, and a channel's status.
use vstd::prelude::*;

use crate::channel::transitions::{spec_handle_channel_deposit, TransitionResult};
use crate::channel::validators::{spec_signed_by, spec_valid_withdraw_request};
use crate::hashing::spec_pack_withdraw;
use crate::initiator::{spec_route_channel, spec_route_too_expensive, spec_route_usable};
use crate::primitives::{u256_max, Address};
use crate::routes::{spec_acceptable_positions, spec_hop_after, ChannelKey};
use crate::types::state::{
    ChainState, ChannelIdentifier, ChannelState, ChannelStatus, RouteState, TokenNetworkAddress,
    TransactionResult, TransferDescriptionWithSecretState,
};
use crate::types::state_change::{ContractReceiveChannelDeposit, ReceiveWithdrawRequest};

verus! {

/// A route with a channel is too expensive exactly when the payment amount,
/// the estimated fee and its margin (3% of the fee and 0.05% of the amount)
/// exceed the amount plus a fifth of it (a fifth of the largest 256-bit
/// number where twenty times the amount does not fit); a usable route stays
/// within that limit.
pub proof fn law_fee_limit_is_a_fifth(
    chain_state: &ChainState,
    route: RouteState,
    description: &TransferDescriptionWithSecretState,
)
    ensures
        ({
            let amount = description.amount@;
            let fee = route.estimated_fee@;
            let margin = if fee == 0 {
                0
            } else {
                fee * 3 / 100 + amount * 5 / 10000
            };
            let fifth = (if amount * 20 <= u256_max() {
                amount * 20
            } else {
                u256_max()
            }) / 100;
            &&& spec_route_too_expensive(chain_state, route, description) <==> (spec_route_channel(
                chain_state,
                route,
                description,
            ) is Some && amount + fee + margin > amount + fifth)
            &&& spec_route_usable(chain_state, route, description) ==> amount + fee + margin <= amount
                + fifth
        }),
{
}

/// A withdraw request of the partner that names the channel, the partner
/// as participant and sender, the next nonce and a valid signature, and
/// whose total fits with ours, is accepted exactly when the partner's
/// balance (its deposit and what we sent it, less what it withdrew and
/// sent us) covers the increase of its total withdraw.
pub proof fn law_withdraw_request_checks_the_increase(c: ChannelState, request: ReceiveWithdrawRequest)
    requires
        request.canonical_identifier == c.canonical_identifier,
        request.participant == c.partner_state.address,
        request.sender == c.partner_state.address,
        request.nonce@ == c.partner_state.nonce@ + 1,
        spec_signed_by(
            spec_pack_withdraw(
                request.canonical_identifier,
                request.participant,
                request.total_withdraw@,
                request.expiration,
            ),
            request.signature,
            request.sender,
        ),
        request.total_withdraw@ + c.our_state.spec_total_withdraw() <= u256_max(),
    ensures
        spec_valid_withdraw_request(&c, &request) <==> c.partner_state.contract_balance@
            + c.our_state.spec_transferred() - c.partner_state.spec_total_withdraw()
            - c.partner_state.spec_transferred() >= request.total_withdraw@
            - c.partner_state.spec_total_withdraw(),
{
}

/// After a deposit of participant `p` with contract balance `b`, the end of
/// the channel that `p` owns holds the larger of its old contract balance
/// and `b`; nothing else of the channel changes, and a deposit of neither
/// participant changes nothing.
pub proof fn law_deposit_raises_its_owner(
    channel_state: ChannelState,
    state_change: ContractReceiveChannelDeposit,
    r: TransitionResult,
)
    requires
        spec_handle_channel_deposit(channel_state, state_change, r),
    ensures
        r is Ok,
        r->Ok_0.new_state is Some,
        ({
            let c = r->Ok_0.new_state.unwrap();
            let p = state_change.deposit_transaction.participant_address;
            let b = state_change.deposit_transaction.contract_balance@;
            let our = channel_state.our_state;
            let partner = channel_state.partner_state;
            &&& c == ChannelState { our_state: c.our_state, partner_state: c.partner_state, ..channel_state }
            &&& c.our_state == crate::types::state::ChannelEndState {
                contract_balance: c.our_state.contract_balance,
                ..our
            }
            &&& c.partner_state == crate::types::state::ChannelEndState {
                contract_balance: c.partner_state.contract_balance,
                ..partner
            }
            &&& p == our.address ==> c.our_state.contract_balance@ == (if b > our.contract_balance@ {
                b
            } else {
                our.contract_balance@
            }) && c.partner_state == partner
            &&& p != our.address && p == partner.address ==> c.partner_state.contract_balance@ == (
            if b > partner.contract_balance@ {
                b
            } else {
                partner.contract_balance@
            }) && c.our_state == our
            &&& p != our.address && p != partner.address ==> c == channel_state
        }),
{
}

/// The route goes on from us to a partner with whom we have a channel in
/// the token network that is not blacklisted.
pub open spec fn spec_route_goes_through_channel(
    route: RouteState,
    blacklisted: Seq<ChannelIdentifier>,
    channels: Map<ChannelKey, &ChannelState>,
    token_network_address: TokenNetworkAddress,
    our_address: Address,
) -> bool {
    exists|hop: Address|
        spec_hop_after(route.route@, our_address) == Some(hop) && #[trigger] channels.contains_key(
            ChannelKey { token_network_address, partner_address: hop },
        ) && !blacklisted.contains(
            channels[ChannelKey { token_network_address, partner_address: hop }].canonical_identifier.channel_identifier,
        )
}

/// The routes kept are exactly those that go on through a channel that is
/// not blacklisted, in their order: the positions kept rise, each kept
/// route goes through such a channel, and every such route is kept.
pub proof fn law_filter_keeps_every_acceptable_route(
    routes: Seq<RouteState>,
    blacklisted: Seq<ChannelIdentifier>,
    channels: Map<ChannelKey, &ChannelState>,
    token_network_address: TokenNetworkAddress,
    our_address: Address,
)
    ensures
        ({
            let p = spec_acceptable_positions(routes, blacklisted, channels, token_network_address, our_address);
            &&& forall|k: int| 0 <= k < p.len() ==> 0 <= #[trigger] p[k] < routes.len()
            &&& forall|k: int|
                0 <= k < p.len() ==> spec_route_goes_through_channel(
                    routes[#[trigger] p[k]],
                    blacklisted,
                    channels,
                    token_network_address,
                    our_address,
                )
            &&& forall|k: int, l: int| 0 <= k < l < p.len() ==> #[trigger] p[k] < #[trigger] p[l]
            &&& forall|i: int|
                0 <= i < routes.len() && spec_route_goes_through_channel(
                    #[trigger] routes[i],
                    blacklisted,
                    channels,
                    token_network_address,
                    our_address,
                ) ==> p.contains(i)
        }),
    decreases routes.len(),
{
    let p = spec_acceptable_positions(routes, blacklisted, channels, token_network_address, our_address);
    if routes.len() > 0 {
        let d = routes.drop_last();
        law_filter_keeps_every_acceptable_route(d, blacklisted, channels, token_network_address, our_address);
        let rest = spec_acceptable_positions(d, blacklisted, channels, token_network_address, our_address);
        let n = routes.len() - 1;
        assert forall|j: int| 0 <= j < n implies routes[j] == #[trigger] d[j] by {}
        assert forall|k: int| 0 <= k < rest.len() implies #[trigger] rest[k] < n by {}
        assert forall|i: int|
            0 <= i < routes.len() && spec_route_goes_through_channel(
                #[trigger] routes[i],
                blacklisted,
                channels,
                token_network_address,
                our_address,
            ) implies p.contains(i) by {
            if i < n {
                assert(d[i] == routes[i]);
                let k = choose|k: int| 0 <= k < rest.len() && rest[k] == i;
                assert(p[k] == i);
            } else {
                assert(p.last() == n);
            }
        }
        assert forall|k: int|
            0 <= k < p.len() implies spec_route_goes_through_channel(
                routes[#[trigger] p[k]],
                blacklisted,
                channels,
                token_network_address,
                our_address,
            ) by {
            if k < rest.len() {
                assert(p[k] == rest[k]);
                assert(routes[rest[k]] == d[rest[k]]);
            } else {
                let hop = spec_hop_after(routes[n].route@, our_address).unwrap();
                assert(channels.contains_key(ChannelKey { token_network_address, partner_address: hop }));
            }
        }
    }
}

/// A channel's status is read from its transactions: a settle transaction
/// that succeeded makes it settled, one still without a finished block
/// settling, one that finished otherwise unusable; without one, a close
/// transaction decides in the same way between closed, closing and
/// unusable; without either the channel is open.
pub proof fn law_status_from_transactions(c: ChannelState)
    ensures
        c.spec_status() == match c.settle_transaction {
            Some(t) => if t.result == Some(TransactionResult::Success) {
                ChannelStatus::Settled
            } else if t.finished_block_number is None {
                ChannelStatus::Settling
            } else {
                ChannelStatus::Unusable
            },
            None => match c.close_transaction {
                Some(t) => if t.result == Some(TransactionResult::Success) {
                    ChannelStatus::Closed
                } else if t.finished_block_number is None {
                    ChannelStatus::Closing
                } else {
                    ChannelStatus::Unusable
                },
                None => ChannelStatus::Opened,
            },
        },
{
}

} // verus!
