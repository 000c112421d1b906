use web3::signing::Key;
use raiden_channels::chain::state_transition;
use raiden_channels::hashing::{hash_balance_data, keccak};
use raiden_channels::incoming::{
    convert, lock_expired_from_message, locked_transfer_from_message, secret_request_from_message,
    secret_reveal_from_message, unlock_from_message, Message,
    lock_expired_state_change, locked_transfer_state_changes, received_balance_proof,
    secret_request_state_change, secret_reveal_state_change, unlock_state_change,
    withdraw_confirmation_state_change, withdraw_expired_state_change,
    withdraw_request_state_change, MessageBalanceProof, LockExpiredMessage,
    LockedTransferMessage, MessageRoute, SecretRequestMessage, SecretRevealMessage,
    UnlockMessage, WithdrawMessage,
};
use raiden_channels::map::LinearMap;
use raiden_channels::messages::{
    lock_expired_message_hash, lock_expired_signed_data, locked_transfer_message_hash,
    locked_transfer_signed_data, secret_request_signed_data, secret_reveal_signed_data,
    unlock_message_hash, unlock_signed_data,
};
use raiden_channels::primitives::{Address, Signature, H256, U256};
use raiden_channels::types::state::{
    AddressMetadata, CanonicalIdentifier, ChainState, ChannelState, DecryptedSecret,
    MediationFeeConfig, TokenNetworkRegistryState, TokenNetworkState, TransactionExecutionStatus,
    TransactionResult,
};
use raiden_channels::types::state_change::{
    ContractReceiveChannelOpened, ContractReceiveTokenNetworkCreated,
    ContractReceiveTokenNetworkRegistry, StateChange,
};

fn address(b: u8) -> Address {
    Address { bytes: [b; 20] }
}

fn hash(b: u8) -> H256 {
    H256 { bytes: [b; 32] }
}

fn amount(x: u64) -> U256 {
    U256::from_u64(x)
}

fn us() -> Address {
    address(0xaa)
}

fn payer() -> Address {
    address(0xbb)
}

fn balance_proof_fields() -> MessageBalanceProof {
    MessageBalanceProof {
        chain_id: 5,
        token_network_address: address(0x11),
        channel_identifier: amount(1),
        nonce: amount(1),
        transferred_amount: amount(0),
        locked_amount: amount(10),
        locksroot: hash(7),
    }
}

fn route(nodes: &[u8]) -> MessageRoute {
    MessageRoute { route: nodes.iter().map(|b| address(*b)).collect(), address_metadata: LinearMap::new() }
}

fn transfer(target: Address, routes: Vec<MessageRoute>) -> LockedTransferMessage {
    LockedTransferMessage {
        message_identifier: 9,
        recipient: address(0x77),
        payment_identifier: 4,
        token: address(0x22),
        lock_amount: amount(10),
        lock_expiration: 100,
        lock_secrethash: Some(hash(3)),
        initiator: payer(),
        target,
        secret: None,
        routes,
        balance_proof: balance_proof_fields(),
        signature: Signature { bytes: [5; 65] },
    }
}

fn node_with_channel_to(partner: Address) -> ChainState {
    let chain_state = ChainState::new(5, 1, H256::zero(), us());
    let registry = ContractReceiveTokenNetworkRegistry {
        transaction_hash: None,
        token_network_registry: TokenNetworkRegistryState::new(address(0x33), vec![]),
        block_number: 1,
        block_hash: H256::zero(),
    };
    let chain_state = state_transition(chain_state, StateChange::ContractReceiveTokenNetworkRegistry(registry))
        .ok()
        .expect("registry")
        .new_state;
    let created = ContractReceiveTokenNetworkCreated {
        transaction_hash: None,
        token_network_registry_address: address(0x33),
        token_network: TokenNetworkState::new(address(0x11), address(0x22)),
        block_number: 1,
        block_hash: H256::zero(),
    };
    let chain_state = state_transition(chain_state, StateChange::ContractReceiveTokenNetworkCreated(created))
        .ok()
        .expect("token network")
        .new_state;
    let channel = ChannelState::new(
        CanonicalIdentifier { chain_identifier: 5, token_network_address: address(0x11), channel_identifier: amount(2) },
        address(0x22),
        address(0x33),
        us(),
        partner,
        50,
        500,
        TransactionExecutionStatus {
            started_block_number: Some(1),
            finished_block_number: Some(2),
            result: Some(TransactionResult::Success),
        },
        MediationFeeConfig::new(),
    )
    .expect("channel");
    let opened = ContractReceiveChannelOpened {
        transaction_hash: None,
        block_number: 2,
        block_hash: H256::zero(),
        channel_state: channel,
    };
    state_transition(chain_state, StateChange::ContractReceiveChannelOpened(opened))
        .ok()
        .expect("channel")
        .new_state
}

#[test]
fn received_balance_proof_is_complete() {
    let bp = received_balance_proof(&balance_proof_fields(), hash(8), Signature { bytes: [5; 65] }, payer());
    assert_eq!(bp.locked_amount, amount(10));
    assert_eq!(bp.balance_hash.bytes, hash_balance_data(amount(0), amount(10), hash(7)).bytes);
    assert_eq!(bp.message_hash.expect("hash").bytes, [8; 32]);
    assert_eq!(bp.sender.expect("sender").bytes, payer().bytes);
    assert_eq!(bp.canonical_identifier.channel_identifier, amount(1));
}

#[test]
fn transfer_to_us_starts_the_target() {
    let changes = locked_transfer_state_changes(
        transfer(us(), vec![route(&[0xbb, 0xaa])]),
        hash(8),
        payer(),
        us(),
        None,
        &ChainState::new(5, 1, H256::zero(), us()),
    )
    .expect("valid transfer");
    assert_eq!(changes.len(), 1);
    match &changes[0] {
        StateChange::ActionInitTarget(init) => {
            assert!(!init.received_valid_secret);
            assert_eq!(init.transfer.lock.amount, amount(10));
            assert_eq!(init.transfer.lock.secrethash.bytes, [3; 32]);
            assert_eq!(init.transfer.route_states.len(), 1);
            assert_eq!(init.from_hop.node_address.bytes, payer().bytes);
        }
        _ => panic!("expected the start of the target"),
    }
}

#[test]
fn transfer_with_a_matching_secret_reveals_it() {
    let secret = DecryptedSecret { secret: hash(0x44), amount: amount(10), payment_identifier: 4 };
    let changes = locked_transfer_state_changes(
        transfer(us(), vec![]),
        hash(8),
        payer(),
        us(),
        Some(Ok(secret)),
        &ChainState::new(5, 1, H256::zero(), us()),
    )
    .expect("valid secret");
    assert_eq!(changes.len(), 2);
    assert!(matches!(&changes[0], StateChange::ActionInitTarget(init) if init.received_valid_secret));
    match &changes[1] {
        StateChange::ReceiveSecretReveal(reveal) => {
            assert_eq!(reveal.secret.bytes, [0x44; 32]);
            assert_eq!(reveal.secrethash.bytes, [3; 32]);
        }
        _ => panic!("expected the secret"),
    }
}

#[test]
fn transfer_with_a_wrong_secret_is_refused() {
    let chain_state = ChainState::new(5, 1, H256::zero(), us());
    let too_much = DecryptedSecret { secret: hash(0x44), amount: amount(11), payment_identifier: 4 };
    let result = locked_transfer_state_changes(transfer(us(), vec![]), hash(8), payer(), us(), Some(Ok(too_much)), &chain_state);
    assert_eq!(result.err(), Some("Invalid Secret".to_string()));
    let other_payment = DecryptedSecret { secret: hash(0x44), amount: amount(10), payment_identifier: 5 };
    let result = locked_transfer_state_changes(transfer(us(), vec![]), hash(8), payer(), us(), Some(Ok(other_payment)), &chain_state);
    assert_eq!(result.err(), Some("Invalid Secret".to_string()));
    let result = locked_transfer_state_changes(
        transfer(us(), vec![]),
        hash(8),
        payer(),
        us(),
        Some(Err("cannot decrypt".to_string())),
        &chain_state,
    );
    assert_eq!(result.err(), Some("cannot decrypt".to_string()));
}

#[test]
fn mediator_keeps_the_routes_through_its_channels() {
    let chain_state = node_with_channel_to(address(0xcc));
    let routes = vec![route(&[0xbb, 0xaa, 0xcc, 0xee]), route(&[0xbb, 0xaa, 0xdd, 0xee]), route(&[0xbb, 0xee])];
    let changes = locked_transfer_state_changes(transfer(address(0xee), routes), hash(8), payer(), us(), None, &chain_state)
        .expect("mediated transfer");
    assert_eq!(changes.len(), 1);
    match &changes[0] {
        StateChange::ActionInitMediator(init) => {
            assert_eq!(init.from_transfer.route_states.len(), 3);
            assert_eq!(init.candidate_route_states.len(), 1);
            assert_eq!(init.candidate_route_states[0].route.len(), 4);
            assert_eq!(init.candidate_route_states[0].route[2].bytes, [0xcc; 20]);
        }
        _ => panic!("expected the start of the mediator"),
    }
}

#[test]
fn secrets_are_hashed_with_keccak() {
    let reveal = secret_reveal_state_change(
        &SecretRevealMessage { message_identifier: 1, secret: hash(0x44), signature: Signature { bytes: [5; 65] } },
        payer(),
    );
    assert_eq!(reveal.secrethash.bytes, keccak(&[0x44; 32]).bytes);
    assert_ne!(reveal.secrethash.bytes, reveal.secret.bytes);
    let unlock = unlock_state_change(
        &UnlockMessage {
            message_identifier: 2,
            payment_identifier: 4,
            secret: hash(0x44),
            balance_proof: balance_proof_fields(),
            signature: Signature { bytes: [5; 65] },
        },
        hash(8),
        payer(),
    );
    assert_eq!(unlock.secrethash.bytes, reveal.secrethash.bytes);
    assert_eq!(unlock.message_identifier, 2);
}

#[test]
fn other_messages_become_their_state_changes() {
    let expired = lock_expired_state_change(
        &LockExpiredMessage {
            message_identifier: 3,
            recipient: address(0x77),
            secrethash: hash(3),
            balance_proof: balance_proof_fields(),
            signature: Signature { bytes: [5; 65] },
        },
        hash(8),
        payer(),
    );
    assert_eq!(expired.secrethash.bytes, [3; 32]);
    assert_eq!(expired.balance_proof.nonce, amount(1));
    let request = secret_request_state_change(
        &SecretRequestMessage {
            message_identifier: 4,
            payment_identifier: 4,
            secrethash: hash(3),
            amount: amount(10),
            expiration: 100,
            signature: Signature { bytes: [5; 65] },
        },
        payer(),
    );
    assert!(request.revealsecret.is_none());
    assert_eq!(request.amount, amount(10));
    let withdraw = WithdrawMessage {
        message_identifier: 5,
        chain_id: 5,
        token_network_address: address(0x11),
        channel_identifier: amount(1),
        participant: payer(),
        total_withdraw: amount(3),
        nonce: amount(2),
        expiration: 120,
        signature: Signature { bytes: [5; 65] },
        coop_settle: true,
    };
    let metadata = AddressMetadata {
        user_id: "@bb:server".to_string(),
        displayname: "bb".to_string(),
        capabilities: String::new(),
    };
    let request = withdraw_request_state_change(&withdraw, payer(), metadata);
    assert!(request.coop_settle);
    assert_eq!(request.sender_metadata.expect("metadata").displayname, "bb");
    let confirmation = withdraw_confirmation_state_change(&withdraw, payer());
    assert_eq!(confirmation.total_withdraw, amount(3));
    let expired = withdraw_expired_state_change(&withdraw, payer());
    assert_eq!(expired.expiration, 120);
    assert_eq!(expired.canonical_identifier.channel_identifier, amount(1));
}

#[test]
fn reveal_with_an_unrecoverable_signature_is_refused() {
    let message = SecretRevealMessage { message_identifier: 1, secret: hash(0x44), signature: Signature { bytes: [0; 65] } };
    match secret_reveal_from_message(&message) {
        Err(e) => assert_eq!(e, "Could not recover address from signature"),
        Ok(_) => panic!("expected the refusal"),
    }
}

fn key() -> web3::signing::SecretKey {
    web3::signing::SecretKey::from_slice(&[7u8; 32]).expect("key")
}

fn key_address() -> Address {
    Address { bytes: web3::signing::SecretKeyRef::new(&key()).address().0 }
}

fn sign(data: &[u8]) -> Signature {
    let digest = web3::signing::hash_message(data);
    let s = web3::signing::SecretKeyRef::new(&key()).sign(digest.as_bytes(), None).expect("signature");
    let mut bytes = [0u8; 65];
    bytes[..32].copy_from_slice(s.r.as_bytes());
    bytes[32..64].copy_from_slice(s.s.as_bytes());
    bytes[64] = s.v as u8;
    Signature { bytes }
}

#[test]
fn secret_reveal_signs_the_request_command_and_the_secret() {
    let message = SecretRevealMessage { message_identifier: 1, secret: hash(0x44), signature: Signature { bytes: [0; 65] } };
    let data = secret_reveal_signed_data(&message);
    let mut expected = vec![3u8];
    expected.extend_from_slice(&[0x44; 32]);
    assert_eq!(data, expected);
}

#[test]
fn secret_request_signs_its_fields() {
    let message = SecretRequestMessage {
        message_identifier: 0x1_0000_0002,
        payment_identifier: 4,
        secrethash: hash(3),
        amount: amount(10),
        expiration: 0x0102,
        signature: Signature { bytes: [0; 65] },
    };
    let data = secret_request_signed_data(&message);
    assert_eq!(data.len(), 1 + 4 + 8 + 32 + 32 + 32);
    assert_eq!(data[0], 3);
    assert_eq!(&data[1..5], &[0, 0, 0, 2]);
    assert_eq!(&data[5..13], &[0, 0, 0, 0, 0, 0, 0, 4]);
    assert_eq!(&data[13..45], &[3u8; 32]);
    assert_eq!(data[76], 10);
    assert_eq!(&data[77..85], &[0, 0, 0, 0, 0, 0, 1, 2]);
    assert_eq!(&data[85..], &[0u8; 24]);
}

#[test]
fn message_hashes_use_the_lock_expiry_command() {
    let expired = LockExpiredMessage {
        message_identifier: 3,
        recipient: address(0x77),
        secrethash: hash(3),
        balance_proof: balance_proof_fields(),
        signature: Signature { bytes: [0; 65] },
    };
    let mut data = vec![13u8, 0, 0, 0, 3];
    data.extend_from_slice(&[0x77; 20]);
    data.extend_from_slice(&[3; 32]);
    assert_eq!(lock_expired_message_hash(&expired).bytes, keccak(&data).bytes);
    let signed = lock_expired_signed_data(&expired);
    assert_eq!(&signed[signed.len() - 32..], &keccak(&data).bytes);

    let unlock = UnlockMessage {
        message_identifier: 5,
        payment_identifier: 4,
        secret: hash(0x44),
        balance_proof: balance_proof_fields(),
        signature: Signature { bytes: [0; 65] },
    };
    let mut data = vec![13u8, 0, 0, 0, 5, 0, 0, 0, 0, 0, 0, 0, 4];
    data.extend_from_slice(&[0x44; 32]);
    assert_eq!(unlock_message_hash(&unlock).bytes, keccak(&data).bytes);
    assert_eq!(unlock_signed_data(&unlock).len(), 20 + 32 * 6);

    let locked = transfer(us(), vec![]);
    let data = vec![13u8, 0, 0, 0, 9, 0, 0, 0, 0, 0, 0, 0, 4];
    assert_eq!(locked_transfer_message_hash(&locked).bytes, keccak(&data).bytes);
    assert_eq!(locked_transfer_signed_data(&locked).len(), 20 + 32 * 6);
}

#[test]
fn signer_of_a_message_is_its_sender() {
    let mut reveal = SecretRevealMessage { message_identifier: 1, secret: hash(0x44), signature: Signature { bytes: [0; 65] } };
    reveal.signature = sign(&secret_reveal_signed_data(&reveal));
    let state_change = secret_reveal_from_message(&reveal).ok().expect("signed");
    assert_eq!(state_change.sender.bytes, key_address().bytes);
    assert_eq!(state_change.secrethash.bytes, keccak(&[0x44; 32]).bytes);

    let mut request = SecretRequestMessage {
        message_identifier: 4,
        payment_identifier: 4,
        secrethash: hash(3),
        amount: amount(10),
        expiration: 100,
        signature: Signature { bytes: [0; 65] },
    };
    request.signature = sign(&secret_request_signed_data(&request));
    assert_eq!(secret_request_from_message(&request).ok().expect("signed").sender.bytes, key_address().bytes);

    let mut expired = LockExpiredMessage {
        message_identifier: 3,
        recipient: address(0x77),
        secrethash: hash(3),
        balance_proof: balance_proof_fields(),
        signature: Signature { bytes: [0; 65] },
    };
    expired.signature = sign(&lock_expired_signed_data(&expired));
    let state_change = lock_expired_from_message(&expired).ok().expect("signed");
    assert_eq!(state_change.sender.bytes, key_address().bytes);
    assert_eq!(state_change.balance_proof.message_hash.expect("hash").bytes, lock_expired_message_hash(&expired).bytes);

    let mut unlock = UnlockMessage {
        message_identifier: 5,
        payment_identifier: 4,
        secret: hash(0x44),
        balance_proof: balance_proof_fields(),
        signature: Signature { bytes: [0; 65] },
    };
    unlock.signature = sign(&unlock_signed_data(&unlock));
    let state_change = unlock_from_message(&unlock).ok().expect("signed");
    assert_eq!(state_change.sender.bytes, key_address().bytes);
    assert_eq!(state_change.balance_proof.message_hash.expect("hash").bytes, unlock_message_hash(&unlock).bytes);
}

#[test]
fn converted_messages_give_their_state_changes() {
    let chain_state = ChainState::new(5, 1, H256::zero(), us());
    let mut reveal = SecretRevealMessage { message_identifier: 1, secret: hash(0x44), signature: Signature { bytes: [0; 65] } };
    reveal.signature = sign(&secret_reveal_signed_data(&reveal));
    let changes = convert(Message::SecretReveal(reveal), us(), None, &chain_state).ok().expect("converted");
    assert_eq!(changes.len(), 1);
    assert!(matches!(changes[0], StateChange::ReceiveSecretReveal(_)));
    let changes = convert(Message::PFSFeeUpdate, us(), None, &chain_state).ok().expect("converted");
    assert!(changes.is_empty());
    let unsigned = SecretRevealMessage { message_identifier: 1, secret: hash(0x44), signature: Signature { bytes: [0; 65] } };
    assert!(convert(Message::SecretReveal(unsigned), us(), None, &chain_state).is_err());

    let mut locked = transfer(us(), vec![]);
    locked.signature = sign(&locked_transfer_signed_data(&locked));
    let changes = locked_transfer_from_message(locked, us(), None, &chain_state).ok().expect("converted");
    match &changes[0] {
        StateChange::ActionInitTarget(init) => assert_eq!(init.sender.bytes, key_address().bytes),
        _ => panic!("expected the target's start"),
    }
}
