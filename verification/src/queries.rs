//! The queries by which the node finds stored state changes and events:
//! which fields of the stored data are compared with which values, and the
//! text of the query together with the values bound to its placeholders.
use vstd::prelude::*;
use vstd::string::StringExecFns;

use crate::primitives::{Address, H256};
use crate::text::{append_address_short, append_hex, append_u256, append_u64, spec_address_short, spec_decimal, spec_hash_full};
use crate::types::state::CanonicalIdentifier;

verus! {

/// The fields and values of criteria, as text.
pub open spec fn spec_criteria(v: Seq<(String, String)>) -> Seq<(Seq<char>, Seq<char>)> {
    Seq::new(v.len(), |i: int| (v[i].0@, v[i].1@))
}

/// The values of criteria, in order.
pub open spec fn spec_values(c: Seq<(Seq<char>, Seq<char>)>) -> Seq<Seq<char>> {
    Seq::new(c.len(), |i: int| c[i].1)
}

/// The text of strings.
pub open spec fn spec_texts(v: Seq<String>) -> Seq<Seq<char>> {
    Seq::new(v.len(), |i: int| v[i]@)
}

/// `0x` and the lower-case hexadecimal digits of the bytes.
fn hex_value(bytes: &[u8]) -> (r: String)
    ensures
        r@ == spec_hash_full(bytes@),
{
    let mut r = String::from_str("0x");
    append_hex(&mut r, bytes);
    proof {
        reveal_strlit("0x");
    }
    assert(r@ =~= spec_hash_full(bytes@));
    r
}

/// The criteria on the balance proof at `proof_path` of the stored data:
/// its channel, the field `key_field` with the value `key`, and the field
/// `recipient_field` with the value `recipient`.
pub open spec fn spec_balance_proof_criteria(
    proof_path: Seq<char>,
    canonical_identifier: CanonicalIdentifier,
    key_field: Seq<char>,
    key: Seq<u8>,
    recipient_field: Seq<char>,
    recipient: Seq<u8>,
) -> Seq<(Seq<char>, Seq<char>)> {
    seq![
        (
            proof_path + ".canonical_identifier.chain_identifier"@,
            spec_decimal(canonical_identifier.chain_identifier as nat),
        ),
        (
            proof_path + ".canonical_identifier.token_network_address"@,
            spec_hash_full(canonical_identifier.token_network_address@),
        ),
        (
            proof_path + ".canonical_identifier.channel_identifier"@,
            spec_decimal(canonical_identifier.channel_identifier@),
        ),
        (key_field, spec_hash_full(key)),
        (recipient_field, spec_hash_full(recipient)),
    ]
}

fn field(path: &str, rest: &str) -> (r: String)
    ensures
        r@ == path@ + rest@,
{
    let mut r = String::from_str(path);
    r.append(rest);
    r
}

fn balance_proof_criteria(
    proof_path: &str,
    canonical_identifier: CanonicalIdentifier,
    key_field: &str,
    key: &H256,
    recipient_field: &str,
    recipient: &Address,
) -> (r: Vec<(String, String)>)
    ensures
        spec_criteria(r@) == spec_balance_proof_criteria(
            proof_path@,
            canonical_identifier,
            key_field@,
            key@,
            recipient_field@,
            recipient@,
        ),
{
    let mut chain = String::new();
    append_u64(&mut chain, canonical_identifier.chain_identifier);
    let mut channel = String::new();
    append_u256(&mut channel, canonical_identifier.channel_identifier);
    let r = vec![
        (field(proof_path, ".canonical_identifier.chain_identifier"), chain),
        (
            field(proof_path, ".canonical_identifier.token_network_address"),
            hex_value(canonical_identifier.token_network_address.bytes.as_slice()),
        ),
        (field(proof_path, ".canonical_identifier.channel_identifier"), channel),
        (String::from_str(key_field), hex_value(key.bytes.as_slice())),
        (String::from_str(recipient_field), hex_value(recipient.bytes.as_slice())),
    ];
    assert(spec_criteria(r@) =~= spec_balance_proof_criteria(
        proof_path@,
        canonical_identifier,
        key_field@,
        key@,
        recipient_field@,
        recipient@,
    ));
    r
}

/// The criteria of a stored state change whose balance proof has the
/// balance hash `balance_hash` and was sent to `recipient`.
pub fn state_change_criteria_by_balance_hash(
    canonical_identifier: CanonicalIdentifier,
    balance_hash: H256,
    recipient: Address,
) -> (r: Vec<(String, String)>)
    ensures
        spec_criteria(r@) == spec_balance_proof_criteria(
            "balance_proof"@,
            canonical_identifier,
            "balance_hash"@,
            balance_hash@,
            "recipient"@,
            recipient@,
        ),
{
    balance_proof_criteria(
        "balance_proof",
        canonical_identifier,
        "balance_hash",
        &balance_hash,
        "recipient",
        &recipient,
    )
}

/// The criteria of a stored state change whose balance proof has the
/// locksroot `locksroot` and was sent by `sender`.
pub fn state_change_criteria_by_locksroot(
    canonical_identifier: CanonicalIdentifier,
    locksroot: H256,
    sender: Address,
) -> (r: Vec<(String, String)>)
    ensures
        spec_criteria(r@) == spec_balance_proof_criteria(
            "balance_proof"@,
            canonical_identifier,
            "balance_proof.locksroot"@,
            locksroot@,
            "balance_proof.sender"@,
            sender@,
        ),
{
    balance_proof_criteria(
        "balance_proof",
        canonical_identifier,
        "balance_proof.locksroot",
        &locksroot,
        "balance_proof.sender",
        &sender,
    )
}

/// The two groups of criteria of a stored event whose balance proof, held
/// directly or in a transfer, has the balance hash `balance_hash` and goes
/// to `recipient`.
pub fn event_criteria_by_balance_hash(
    canonical_identifier: CanonicalIdentifier,
    balance_hash: H256,
    recipient: Address,
) -> (r: Vec<Vec<(String, String)>>)
    ensures
        r@.len() == 2,
        spec_criteria(r@[0]@) == spec_balance_proof_criteria(
            "balance_proof"@,
            canonical_identifier,
            "balance_hash"@,
            balance_hash@,
            "recipient"@,
            recipient@,
        ),
        spec_criteria(r@[1]@) == spec_balance_proof_criteria(
            "transfer.balance_proof"@,
            canonical_identifier,
            "transfer.balance_hash"@,
            balance_hash@,
            "recipient"@,
            recipient@,
        ),
{
    let direct = balance_proof_criteria(
        "balance_proof",
        canonical_identifier,
        "balance_hash",
        &balance_hash,
        "recipient",
        &recipient,
    );
    let in_transfer = balance_proof_criteria(
        "transfer.balance_proof",
        canonical_identifier,
        "transfer.balance_hash",
        &balance_hash,
        "recipient",
        &recipient,
    );
    vec![direct, in_transfer]
}

/// The two groups of criteria of a stored event whose balance proof, held
/// directly or in a transfer, has the locksroot `locksroot` and goes to
/// `recipient`.
pub fn event_criteria_by_locksroot(
    canonical_identifier: CanonicalIdentifier,
    locksroot: H256,
    recipient: Address,
) -> (r: Vec<Vec<(String, String)>>)
    ensures
        r@.len() == 2,
        spec_criteria(r@[0]@) == spec_balance_proof_criteria(
            "balance_proof"@,
            canonical_identifier,
            "locksroot"@,
            locksroot@,
            "recipient"@,
            recipient@,
        ),
        spec_criteria(r@[1]@) == spec_balance_proof_criteria(
            "transfer.balance_proof"@,
            canonical_identifier,
            "transfer.locksroot"@,
            locksroot@,
            "recipient"@,
            recipient@,
        ),
{
    let direct = balance_proof_criteria(
        "balance_proof",
        canonical_identifier,
        "locksroot",
        &locksroot,
        "recipient",
        &recipient,
    );
    let in_transfer = balance_proof_criteria(
        "transfer.balance_proof",
        canonical_identifier,
        "transfer.locksroot",
        &locksroot,
        "recipient",
        &recipient,
    );
    vec![direct, in_transfer]
}

/// The comparison of a field of the stored data with the placeholder at
/// `position`.
pub open spec fn spec_json_condition(field: Seq<char>, position: nat) -> Seq<char> {
    "json_extract(data, '$."@ + field + "')=?"@ + spec_decimal(position)
}

/// The comparisons of the fields of `c`, joined by `AND`, the placeholders
/// numbered on from `base`.
pub open spec fn spec_conjunction_from(c: Seq<(Seq<char>, Seq<char>)>, base: nat) -> Seq<char>
    decreases c.len(),
{
    if c.len() == 0 {
        Seq::empty()
    } else if c.len() == 1 {
        spec_json_condition(c[0].0, base + 1)
    } else {
        spec_conjunction_from(c.drop_last(), base) + " AND "@ + spec_json_condition(
            c.last().0,
            base + c.len(),
        )
    }
}

/// The comparisons of the fields of `c`, joined by `AND`, the placeholders
/// numbered from one.
pub open spec fn spec_conjunction(c: Seq<(Seq<char>, Seq<char>)>) -> Seq<char> {
    spec_conjunction_from(c, 0)
}

/// The condition that every criterion holds, its placeholders numbered on
/// from `base`, and their values.
pub fn conjunction_from(criteria: &Vec<(String, String)>, base: usize) -> (r: (String, Vec<String>))
    requires
        base + criteria@.len() <= usize::MAX,
    ensures
        r.0@ == spec_conjunction_from(spec_criteria(criteria@), base as nat),
        spec_texts(r.1@) == spec_values(spec_criteria(criteria@)),
{
    let ghost c = spec_criteria(criteria@);
    let mut condition = String::new();
    let mut values: Vec<String> = Vec::new();
    let n = criteria.len();
    let mut i: usize = 0;
    while i < n
        invariant
            i <= n,
            n == criteria@.len(),
            base + n <= usize::MAX,
            c == spec_criteria(criteria@),
            condition@ == spec_conjunction_from(c.take(i as int), base as nat),
            spec_texts(values@) == spec_values(c.take(i as int)),
        decreases n - i,
    {
        assert(c.take(i + 1).drop_last() =~= c.take(i as int));
        if i > 0 {
            condition.append(" AND ");
        }
        condition.append("json_extract(data, '$.");
        condition.append(criteria[i].0.as_str());
        condition.append("')=?");
        append_u64(&mut condition, (base + i + 1) as u64);
        let ghost texts_before = spec_texts(values@);
        values.push(criteria[i].1.clone());
        proof {
            assert(spec_texts(values@) =~= texts_before.push(c[i as int].1));
            assert(spec_values(c.take(i + 1)) =~= spec_values(c.take(i as int)).push(c[i as int].1));
        }
        i = i + 1;
        proof {
            assert(condition@ =~= spec_conjunction_from(c.take(i as int), base as nat));
        }
    }
    assert(c.take(n as int) =~= c);
    (condition, values)
}

/// The condition that every criterion holds, and the values of its
/// placeholders.
pub fn conjunction(criteria: &Vec<(String, String)>) -> (r: (String, Vec<String>))
    ensures
        r.0@ == spec_conjunction(spec_criteria(criteria@)),
        spec_texts(r.1@) == spec_values(spec_criteria(criteria@)),
{
    let _n = criteria.len();
    conjunction_from(criteria, 0)
}

/// The values bound by the condition of groups of criteria: those of every
/// group, in order.
pub open spec fn spec_grouped_values(g: Seq<Seq<(Seq<char>, Seq<char>)>>) -> Seq<Seq<char>>
    decreases g.len(),
{
    if g.len() == 0 {
        Seq::empty()
    } else {
        spec_grouped_values(g.drop_last()) + spec_values(g.last())
    }
}

/// The condition of groups of criteria: each group in brackets, the groups
/// joined by ` OR `, the placeholders numbered on from one group to the
/// next so that each binds its own value.
pub open spec fn spec_grouped(g: Seq<Seq<(Seq<char>, Seq<char>)>>) -> Seq<char>
    decreases g.len(),
{
    if g.len() == 0 {
        Seq::empty()
    } else {
        let before = g.drop_last();
        let group = "("@ + spec_conjunction_from(g.last(), spec_grouped_values(before).len()) + ")"@;
        if g.len() == 1 {
            group
        } else {
            spec_grouped(before) + " OR "@ + group
        }
    }
}

/// The criteria of each group, as text.
pub open spec fn spec_groups(groups: Seq<Vec<(String, String)>>) -> Seq<Seq<(Seq<char>, Seq<char>)>> {
    Seq::new(groups.len(), |i: int| spec_criteria(groups[i]@))
}

/// The condition of groups of criteria, and the values of its placeholders.
pub fn grouped_condition(groups: &Vec<Vec<(String, String)>>) -> (r: (String, Vec<String>))
    requires
        spec_grouped_values(spec_groups(groups@)).len() <= usize::MAX,
    ensures
        r.0@ == spec_grouped(spec_groups(groups@)),
        spec_texts(r.1@) == spec_grouped_values(spec_groups(groups@)),
{
    let ghost g = spec_groups(groups@);
    let mut condition = String::new();
    let mut values: Vec<String> = Vec::new();
    let n = groups.len();
    let mut i: usize = 0;
    while i < n
        invariant
            i <= n,
            n == groups@.len(),
            g == spec_groups(groups@),
            spec_grouped_values(g).len() <= usize::MAX,
            condition@ == spec_grouped(g.take(i as int)),
            spec_texts(values@) == spec_grouped_values(g.take(i as int)),
        decreases n - i,
    {
        let ghost before = g.take(i as int);
        assert(g.take(i + 1).drop_last() =~= before);
        proof {
            lemma_grouped_values_prefix(g, i as int + 1);
        }
        let ghost values_before = spec_texts(values@);
        let (c, v) = conjunction_from(&groups[i], values.len());
        if i > 0 {
            condition.append(" OR ");
        }
        condition.append("(");
        condition.append(c.as_str());
        condition.append(")");
        let mut k: usize = 0;
        while k < v.len()
            invariant
                k <= v@.len(),
                spec_texts(values@) == values_before + spec_texts(v@).take(k as int),
            decreases v@.len() - k,
        {
            let ghost texts_before = spec_texts(values@);
            values.push(v[k].clone());
            proof {
                assert(spec_texts(values@) =~= texts_before.push(v@[k as int]@));
                assert(spec_texts(v@).take(k + 1) =~= spec_texts(v@).take(k as int).push(
                    v@[k as int]@,
                ));
            }
            k = k + 1;
            assert(spec_texts(values@) =~= values_before + spec_texts(v@).take(k as int));
        }
        assert(spec_texts(v@).take(v@.len() as int) =~= spec_texts(v@));
        i = i + 1;
        proof {
            assert(condition@ =~= spec_grouped(g.take(i as int)));
            assert(spec_texts(values@) =~= spec_grouped_values(g.take(i as int)));
        }
    }
    assert(g.take(n as int) =~= g);
    (condition, values)
}

/// The values of a prefix of the groups are no more than those of all.
proof fn lemma_grouped_values_prefix(g: Seq<Seq<(Seq<char>, Seq<char>)>>, i: int)
    requires
        0 <= i <= g.len(),
    ensures
        spec_grouped_values(g.take(i)).len() <= spec_grouped_values(g).len(),
    decreases g.len() - i,
{
    if i < g.len() {
        lemma_grouped_values_prefix(g, i + 1);
        assert(g.take(i + 1).drop_last() =~= g.take(i));
        assert(spec_grouped_values(g.take(i + 1)) == spec_grouped_values(g.take(i)) + spec_values(
            g.take(i + 1).last(),
        ));
    } else {
        assert(g.take(i) =~= g);
    }
}

/// The comparisons of the fields of `c` written one after another, each
/// field as given, the placeholders numbered from one.
pub open spec fn spec_data_fields(c: Seq<(Seq<char>, Seq<char>)>) -> Seq<char>
    decreases c.len(),
{
    if c.len() == 0 {
        Seq::empty()
    } else {
        spec_data_fields(c.drop_last()) + c.last().0 + "=?"@ + spec_decimal(c.len() as nat)
    }
}

/// The condition of a lookup by data fields, and the values of its
/// placeholders.
pub fn data_field_condition(criteria: &Vec<(String, String)>) -> (r: (String, Vec<String>))
    ensures
        r.0@ == spec_data_fields(spec_criteria(criteria@)),
        spec_texts(r.1@) == spec_values(spec_criteria(criteria@)),
{
    let ghost c = spec_criteria(criteria@);
    let mut condition = String::new();
    let mut values: Vec<String> = Vec::new();
    let n = criteria.len();
    let mut i: usize = 0;
    while i < n
        invariant
            i <= n,
            n == criteria@.len(),
            c == spec_criteria(criteria@),
            condition@ == spec_data_fields(c.take(i as int)),
            spec_texts(values@) == spec_values(c.take(i as int)),
        decreases n - i,
    {
        assert(c.take(i + 1).drop_last() =~= c.take(i as int));
        condition.append(criteria[i].0.as_str());
        condition.append("=?");
        append_u64(&mut condition, (i + 1) as u64);
        let ghost texts_before = spec_texts(values@);
        values.push(criteria[i].1.clone());
        proof {
            assert(spec_texts(values@) =~= texts_before.push(c[i as int].1));
            assert(spec_values(c.take(i + 1)) =~= spec_values(c.take(i as int)).push(c[i as int].1));
        }
        i = i + 1;
        proof {
            assert(condition@ =~= spec_data_fields(c.take(i as int)));
        }
    }
    assert(c.take(n as int) =~= c);
    (condition, values)
}

/// The query for the latest stored state change that meets `condition`.
pub open spec fn spec_state_change_query(condition: Seq<char>) -> Seq<char> {
    "SELECT identifier, data FROM state_changes\n                    WHERE "@ + condition
        + "\n                    ORDER BY identifier DESC\n                    LIMIT 1"@
}

/// The query for the latest stored event that meets `condition`.
pub open spec fn spec_event_query(condition: Seq<char>) -> Seq<char> {
    "SELECT identifier, source_statechange_id, data FROM state_events\n                    WHERE "@
        + condition + "\n                    ORDER BY identifier DESC\n                    LIMIT 1"@
}

/// The query for the latest stored state change that meets `condition`.
pub fn state_change_query(condition: &str) -> (r: String)
    ensures
        r@ == spec_state_change_query(condition@),
{
    let mut r = String::from_str("SELECT identifier, data FROM state_changes\n                    WHERE ");
    r.append(condition);
    r.append("\n                    ORDER BY identifier DESC\n                    LIMIT 1");
    r
}

/// The query for the latest stored event that meets `condition`.
pub fn event_query(condition: &str) -> (r: String)
    ensures
        r@ == spec_event_query(condition@),
{
    let mut r = String::from_str(
        "SELECT identifier, source_statechange_id, data FROM state_events\n                    WHERE ",
    );
    r.append(condition);
    r.append("\n                    ORDER BY identifier DESC\n                    LIMIT 1");
    r
}

/// The query for the latest state change whose data fields have the
/// values of `criteria`, and the values of its placeholders.
pub fn latest_state_change_query(criteria: &Vec<(String, String)>) -> (r: (String, Vec<String>))
    ensures
        r.0@ == spec_state_change_query(spec_data_fields(spec_criteria(criteria@))),
        spec_texts(r.1@) == spec_values(spec_criteria(criteria@)),
{
    let (condition, values) = data_field_condition(criteria);
    (state_change_query(condition.as_str()), values)
}

/// The query for the latest event whose data fields have the values of
/// `criteria`, and the values of its placeholders.
pub fn latest_event_query(criteria: &Vec<(String, String)>) -> (r: (String, Vec<String>))
    ensures
        r.0@ == spec_event_query(spec_data_fields(spec_criteria(criteria@))),
        spec_texts(r.1@) == spec_values(spec_criteria(criteria@)),
{
    let (condition, values) = data_field_condition(criteria);
    (event_query(condition.as_str()), values)
}

/// The query for the latest state change with a balance proof that meets
/// `criteria`, and the values of its placeholders.
pub fn balance_proof_state_change_query(criteria: &Vec<(String, String)>) -> (r: (
    String,
    Vec<String>,
))
    ensures
        r.0@ == spec_state_change_query(spec_conjunction(spec_criteria(criteria@))),
        spec_texts(r.1@) == spec_values(spec_criteria(criteria@)),
{
    let (condition, values) = conjunction(criteria);
    (state_change_query(condition.as_str()), values)
}

/// The query for the latest event with a balance proof that meets the
/// groups of criteria, and the values of its placeholders.
pub fn balance_proof_event_query(groups: &Vec<Vec<(String, String)>>) -> (r: (String, Vec<String>))
    requires
        spec_grouped_values(spec_groups(groups@)).len() <= usize::MAX,
    ensures
        r.0@ == spec_event_query(spec_grouped(spec_groups(groups@))),
        spec_texts(r.1@) == spec_grouped_values(spec_groups(groups@)),
{
    let (condition, values) = grouped_condition(groups);
    (event_query(condition.as_str()), values)
}

/// The query for the payments that the node sent or received, of a token
/// network and with a partner where given, and the values of its
/// placeholders: the addresses as the node writes them in short.
pub open spec fn spec_payment_history_query(
    token_network_address: Option<Address>,
    partner_address: Option<Address>,
) -> (Seq<char>, Seq<Seq<char>>) {
    match (token_network_address, partner_address) {
        (Some(t), Some(p)) => (
            "\n                        SELECT\n                            identifier, data, source_statechange_id, timestamp\n                        FROM\n                            state_events\n                        WHERE\n                            json_extract(data, '$.type') IN ('PaymentReceivedSuccess', 'PaymentSentFailed', 'PaymentSentSuccess')\n                        AND\n                            json_extract(data, '$.token_network_address') LIKE ?1\n                        AND\n                            (\n                                json_extract(data, '$.target') LIKE ?2\n                                OR\n                                json_extract(data, '$.initiator') LIKE ?2\n                            )\n                        ORDER BY identifier ASC"@,
            seq![spec_address_short(t@), spec_address_short(p@)],
        ),
        (Some(t), None) => (
            "\n                        SELECT\n                            identifier, data, source_statechange_id, timestamp\n                        FROM\n                            state_events\n                        WHERE\n                            json_extract(data, '$.type') IN ('PaymentReceivedSuccess', 'PaymentSentFailed', 'PaymentSentSuccess')\n                        AND\n                            json_extract(data, '$.token_network_address') LIKE ?1\n                        ORDER BY identifier ASC\n                        "@,
            seq![spec_address_short(t@)],
        ),
        (None, Some(p)) => (
            "\n                        SELECT\n                            identifier, data, source_statechange_id, timestamp\n                        FROM\n                            state_events\n                        WHERE\n                            json_extract(data, '$.type') IN ('PaymentReceivedSuccess', 'PaymentSentFailed', 'PaymentSentSuccess')\n                        AND\n                            (\n                            json_extract(data, '$.target') LIKE ?1\n                            OR\n                            json_extract(data, '$.initiator') LIKE ?1\n                            )\n                        ORDER BY identifier ASC\n                        "@,
            seq![spec_address_short(p@)],
        ),
        (None, None) => (
            "\n                    SELECT\n                        identifier, data, source_statechange_id, timestamp\n                    FROM\n                        state_events\n                    WHERE\n                        json_extract(data, '$.type') IN ('PaymentReceivedSuccess', 'PaymentSentFailed', 'PaymentSentSuccess')\n                    ORDER BY identifier ASC\n                "@,
            Seq::empty(),
        ),
    }
}

fn short_address(a: &Address) -> (r: String)
    ensures
        r@ == spec_address_short(a@),
{
    let mut r = String::new();
    append_address_short(&mut r, a);
    assert(r@ =~= spec_address_short(a@));
    r
}

/// The query for the payments that the node sent or received, of a token
/// network and with a partner where given, and the values of its
/// placeholders.
pub fn payment_history_query(
    token_network_address: Option<Address>,
    partner_address: Option<Address>,
) -> (r: (String, Vec<String>))
    ensures
        (r.0@, spec_texts(r.1@)) == spec_payment_history_query(
            token_network_address,
            partner_address,
        ),
{
    match (token_network_address, partner_address) {
        (Some(t), Some(p)) => {
            let values = vec![short_address(&t), short_address(&p)];
            let r = (String::from_str(
                "\n                        SELECT\n                            identifier, data, source_statechange_id, timestamp\n                        FROM\n                            state_events\n                        WHERE\n                            json_extract(data, '$.type') IN ('PaymentReceivedSuccess', 'PaymentSentFailed', 'PaymentSentSuccess')\n                        AND\n                            json_extract(data, '$.token_network_address') LIKE ?1\n                        AND\n                            (\n                                json_extract(data, '$.target') LIKE ?2\n                                OR\n                                json_extract(data, '$.initiator') LIKE ?2\n                            )\n                        ORDER BY identifier ASC",
            ), values);
            assert(spec_texts(r.1@) =~= seq![spec_address_short(t@), spec_address_short(p@)]);
            r
        },
        (Some(t), None) => {
            let values = vec![short_address(&t)];
            let r = (String::from_str(
                "\n                        SELECT\n                            identifier, data, source_statechange_id, timestamp\n                        FROM\n                            state_events\n                        WHERE\n                            json_extract(data, '$.type') IN ('PaymentReceivedSuccess', 'PaymentSentFailed', 'PaymentSentSuccess')\n                        AND\n                            json_extract(data, '$.token_network_address') LIKE ?1\n                        ORDER BY identifier ASC\n                        ",
            ), values);
            assert(spec_texts(r.1@) =~= seq![spec_address_short(t@)]);
            r
        },
        (None, Some(p)) => {
            let values = vec![short_address(&p)];
            let r = (String::from_str(
                "\n                        SELECT\n                            identifier, data, source_statechange_id, timestamp\n                        FROM\n                            state_events\n                        WHERE\n                            json_extract(data, '$.type') IN ('PaymentReceivedSuccess', 'PaymentSentFailed', 'PaymentSentSuccess')\n                        AND\n                            (\n                            json_extract(data, '$.target') LIKE ?1\n                            OR\n                            json_extract(data, '$.initiator') LIKE ?1\n                            )\n                        ORDER BY identifier ASC\n                        ",
            ), values);
            assert(spec_texts(r.1@) =~= seq![spec_address_short(p@)]);
            r
        },
        (None, None) => {
            let values: Vec<String> = Vec::new();
            let r = (String::from_str(
                "\n                    SELECT\n                        identifier, data, source_statechange_id, timestamp\n                    FROM\n                        state_events\n                    WHERE\n                        json_extract(data, '$.type') IN ('PaymentReceivedSuccess', 'PaymentSentFailed', 'PaymentSentSuccess')\n                    ORDER BY identifier ASC\n                ",
            ), values);
            assert(spec_texts(r.1@) =~= Seq::<Seq<char>>::empty());
            r
        },
    }
}

} // verus!
