use raiden_channels::primitives::{Address, H256, U256};
use raiden_channels::queries::{
    balance_proof_event_query, balance_proof_state_change_query, conjunction,
    data_field_condition, event_criteria_by_balance_hash, event_criteria_by_locksroot,
    grouped_condition, latest_event_query, latest_state_change_query, payment_history_query,
    state_change_criteria_by_balance_hash, state_change_criteria_by_locksroot,
};
use raiden_channels::types::state::CanonicalIdentifier;

fn address(b: u8) -> Address {
    Address { bytes: [b; 20] }
}

fn hash(b: u8) -> H256 {
    H256 { bytes: [b; 32] }
}

fn canonical_identifier() -> CanonicalIdentifier {
    CanonicalIdentifier {
        chain_identifier: 5,
        token_network_address: address(0x11),
        channel_identifier: U256::from_u64(12),
    }
}

fn criterion(field: &str, value: &str) -> (String, String) {
    (field.to_string(), value.to_string())
}

#[test]
fn criteria_of_a_state_change_balance_proof() {
    let criteria = state_change_criteria_by_balance_hash(canonical_identifier(), hash(0xab), address(0xcd));
    let expected = vec![
        criterion("balance_proof.canonical_identifier.chain_identifier", "5"),
        criterion(
            "balance_proof.canonical_identifier.token_network_address",
            &format!("0x{}", "11".repeat(20)),
        ),
        criterion("balance_proof.canonical_identifier.channel_identifier", "12"),
        criterion("balance_hash", &format!("0x{}", "ab".repeat(32))),
        criterion("recipient", &format!("0x{}", "cd".repeat(20))),
    ];
    assert_eq!(criteria, expected);
    let criteria = state_change_criteria_by_locksroot(canonical_identifier(), hash(0xab), address(0xcd));
    assert_eq!(criteria[3].0, "balance_proof.locksroot");
    assert_eq!(criteria[4].0, "balance_proof.sender");
}

#[test]
fn criteria_of_an_event_balance_proof() {
    let groups = event_criteria_by_balance_hash(canonical_identifier(), hash(0xab), address(0xcd));
    assert_eq!(groups.len(), 2);
    assert_eq!(groups[1][0].0, "transfer.balance_proof.canonical_identifier.chain_identifier");
    assert_eq!(groups[1][3].0, "transfer.balance_hash");
    assert_eq!(groups[1][4].0, "recipient");
    let groups = event_criteria_by_locksroot(canonical_identifier(), hash(0xab), address(0xcd));
    assert_eq!(groups[0][3].0, "locksroot");
    assert_eq!(groups[1][3].0, "transfer.locksroot");
}

#[test]
fn conditions_are_joined_by_and() {
    let (condition, values) = conjunction(&vec![criterion("a", "1"), criterion("b.c", "2")]);
    assert_eq!(condition, "json_extract(data, '$.a')=?1 AND json_extract(data, '$.b.c')=?2");
    assert_eq!(values, vec!["1".to_string(), "2".to_string()]);
    let (condition, values) = conjunction(&vec![]);
    assert_eq!(condition, "");
    assert!(values.is_empty());
}

#[test]
fn groups_are_joined_by_or_and_numbered_on() {
    let one = vec![criterion("a", "1")];
    let two = vec![criterion("b", "2")];
    let three = vec![criterion("c", "3"), criterion("d", "4")];
    let (condition, values) = grouped_condition(&vec![one.clone(), two.clone()]);
    assert_eq!(condition, "(json_extract(data, '$.a')=?1) OR (json_extract(data, '$.b')=?2)");
    assert_eq!(values, vec!["1".to_string(), "2".to_string()]);
    let (condition, values) = grouped_condition(&vec![one.clone(), two, three]);
    assert_eq!(
        condition,
        "(json_extract(data, '$.a')=?1) OR (json_extract(data, '$.b')=?2) OR (json_extract(data, '$.c')=?3 AND json_extract(data, '$.d')=?4)"
    );
    assert_eq!(values, vec!["1".to_string(), "2".to_string(), "3".to_string(), "4".to_string()]);
    let (condition, _) = grouped_condition(&vec![one]);
    assert_eq!(condition, "(json_extract(data, '$.a')=?1)");
}

#[test]
fn data_fields_are_written_one_after_another() {
    let (condition, values) = data_field_condition(&vec![criterion("a", "1"), criterion("b", "2")]);
    assert_eq!(condition, "a=?1b=?2");
    assert_eq!(values.len(), 2);
}

#[test]
fn queries_select_the_latest_record() {
    let (query, _) = latest_state_change_query(&vec![criterion("a", "1")]);
    assert_eq!(
        query,
        "SELECT identifier, data FROM state_changes\n                    WHERE a=?1\n                    ORDER BY identifier DESC\n                    LIMIT 1"
    );
    let (query, _) = latest_event_query(&vec![criterion("a", "1")]);
    assert!(query.starts_with("SELECT identifier, source_statechange_id, data FROM state_events"));
    let criteria = state_change_criteria_by_balance_hash(canonical_identifier(), hash(1), address(2));
    let (query, values) = balance_proof_state_change_query(&criteria);
    assert!(query.contains("json_extract(data, '$.recipient')=?5"));
    assert_eq!(values.len(), 5);
    let groups = event_criteria_by_balance_hash(canonical_identifier(), hash(1), address(2));
    let (query, values) = balance_proof_event_query(&groups);
    assert!(query.contains(") OR ("));
    assert!(query.contains("json_extract(data, '$.recipient')=?10"));
    assert_eq!(values.len(), 10);
}

#[test]
fn payment_history_filters_by_what_is_given() {
    let (query, values) = payment_history_query(Some(address(0x11)), Some(address(0x22)));
    assert!(query.contains("LIKE ?2"));
    assert_eq!(values, vec!["0x1111…1111".to_string(), "0x2222…2222".to_string()]);
    let (query, values) = payment_history_query(Some(address(0x11)), None);
    assert!(query.contains("token_network_address') LIKE ?1"));
    assert_eq!(values.len(), 1);
    let (query, values) = payment_history_query(None, Some(address(0x22)));
    assert!(query.contains("target') LIKE ?1"));
    assert_eq!(values, vec!["0x2222…2222".to_string()]);
    let (query, values) = payment_history_query(None, None);
    assert!(!query.contains("LIKE"));
    assert!(values.is_empty());
}
