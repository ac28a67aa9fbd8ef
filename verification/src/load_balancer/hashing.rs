//! The hashes by which clusters are ranked and stand on a ring.

use super::request::{LoadBalancerRequest, RoutedClusterSnapshot};
use super::wait_and_widen::WaitAndWidenConfig;
use crate::trace::text_or_empty;
use vstd::bytes::{
    lemma_auto_spec_u64_to_from_le_bytes, spec_u64_from_le_bytes, spec_u64_to_le_bytes,
    u64_to_le_bytes,
};
use vstd::prelude::*;
use vstd::utf8::{decode_utf8, encode_utf8, encode_utf8_decode_utf8};

verus! {

/// Stands before what is hashed, so that another way of hashing can be told from this one.
pub const HASH_VERSION: u8 = 1;

/// Names the hash of bytes that `xxhash_rust::xxh3::xxh3_64` computes.
pub uninterp spec fn xxh3_64_of(bytes: Seq<u8>) -> u64;

/// Hashes bytes with `xxhash_rust::xxh3::xxh3_64`. The hash depends on the bytes alone: neither a
/// seed nor the machine has a part in it.
#[verifier::external_body]
fn hash_bytes(bytes: &[u8]) -> (hash: u64)
    ensures
        hash == xxh3_64_of(bytes@),
{
    xxhash_rust::xxh3::xxh3_64(bytes)
}

/// A value with its tag: the tag, a byte that ends it, the length of the value in eight bytes with
/// the least significant first, and the value.
pub open spec fn tagged(tag: Seq<u8>, value: Seq<u8>) -> Seq<u8> {
    tag + seq![0xffu8] + spec_u64_to_le_bytes(value.len() as u64) + value
}

/// Values with their tags, one behind the other.
pub open spec fn tagged_values(fields: Seq<(Seq<u8>, Seq<u8>)>) -> Seq<u8>
    decreases fields.len(),
{
    if fields.len() == 0 {
        Seq::empty()
    } else {
        tagged(fields[0].0, fields[0].1) + tagged_values(fields.drop_first())
    }
}

/// What is hashed of values with their tags.
pub open spec fn hash_input(fields: Seq<(Seq<u8>, Seq<u8>)>) -> Seq<u8> {
    seq![HASH_VERSION] + tagged_values(fields)
}

/// The fields that set hashes for one seed and one routing target apart from others.
pub open spec fn namespace_fields(
    seed: Seq<char>,
    routing_key: Seq<char>,
    model_id: Seq<char>,
) -> Seq<(Seq<u8>, Seq<u8>)> {
    seq![
        (encode_utf8("seed"@), encode_utf8(seed)),
        (encode_utf8("routing_key"@), encode_utf8(routing_key)),
        (encode_utf8("model_id"@), encode_utf8(model_id)),
    ]
}

/// The fields that a cluster is ranked by.
pub open spec fn ranking_fields(
    seed: Seq<char>,
    routing_key: Seq<char>,
    model_id: Seq<char>,
    cache_affinity_key: Seq<char>,
    cluster_id: Seq<char>,
) -> Seq<(Seq<u8>, Seq<u8>)> {
    namespace_fields(seed, routing_key, model_id).push(
        (encode_utf8("cache_affinity_key"@), encode_utf8(cache_affinity_key)),
    ).push((encode_utf8("cluster_id"@), encode_utf8(cluster_id)))
}

/// The fields that give a virtual node of a cluster its place on a ring.
pub open spec fn virtual_node_fields(
    seed: Seq<char>,
    routing_key: Seq<char>,
    model_id: Seq<char>,
    cluster_id: Seq<char>,
    virtual_node: u64,
) -> Seq<(Seq<u8>, Seq<u8>)> {
    namespace_fields(seed, routing_key, model_id).push(
        (encode_utf8("cluster_id"@), encode_utf8(cluster_id)),
    ).push((encode_utf8("virtual_node"@), spec_u64_to_le_bytes(virtual_node)))
}

proof fn lemma_tagged_values_push(fields: Seq<(Seq<u8>, Seq<u8>)>, field: (Seq<u8>, Seq<u8>))
    ensures
        tagged_values(fields.push(field)) == tagged_values(fields) + tagged(field.0, field.1),
    decreases fields.len(),
{
    let longer = fields.push(field);
    if fields.len() == 0 {
        assert(longer.drop_first() =~= Seq::empty());
        assert(tagged_values(longer.drop_first()) =~= Seq::empty());
        assert(tagged_values(longer) =~= tagged(field.0, field.1));
        assert(tagged_values(fields) + tagged(field.0, field.1) =~= tagged(field.0, field.1));
    } else {
        lemma_tagged_values_push(fields.drop_first(), field);
        assert(longer.drop_first() =~= fields.drop_first().push(field));
        assert(tagged_values(longer) =~= tagged_values(fields) + tagged(field.0, field.1));
    }
}

proof fn lemma_hash_input_push(fields: Seq<(Seq<u8>, Seq<u8>)>, field: (Seq<u8>, Seq<u8>))
    ensures
        hash_input(fields.push(field)) == hash_input(fields) + tagged(field.0, field.1),
{
    lemma_tagged_values_push(fields, field);
    assert(hash_input(fields.push(field)) =~= hash_input(fields) + tagged(field.0, field.1));
}

/// Appends a value with its tag.
fn append_tagged(bytes: &mut Vec<u8>, tag: &str, value: &[u8])
    ensures
        final(bytes)@ == old(bytes)@ + tagged(encode_utf8(tag@), value@),
{
    let length: Vec<u8> = u64_to_le_bytes(value.len() as u64);
    bytes.extend_from_slice(tag.as_bytes());
    bytes.push(0xff);
    bytes.extend_from_slice(length.as_slice());
    bytes.extend_from_slice(value);
    assert(bytes@ =~= old(bytes)@ + tagged(encode_utf8(tag@), value@));
}

/// The bytes of the fields for one seed and one routing target.
fn namespace_bytes(seed: &str, routing_key: &str, model_id: &str) -> (bytes: Vec<u8>)
    ensures
        bytes@ == hash_input(namespace_fields(seed@, routing_key@, model_id@)),
{
    let mut bytes: Vec<u8> = vec![HASH_VERSION];
    append_tagged(&mut bytes, "seed", seed.as_bytes());
    append_tagged(&mut bytes, "routing_key", routing_key.as_bytes());
    append_tagged(&mut bytes, "model_id", model_id.as_bytes());
    proof {
        let none = Seq::<(Seq<u8>, Seq<u8>)>::empty();
        let fields = namespace_fields(seed@, routing_key@, model_id@);
        assert(hash_input(none) =~= seq![HASH_VERSION]);
        lemma_hash_input_push(none, fields[0]);
        lemma_hash_input_push(none.push(fields[0]), fields[1]);
        lemma_hash_input_push(none.push(fields[0]).push(fields[1]), fields[2]);
        assert(fields =~= none.push(fields[0]).push(fields[1]).push(fields[2]));
    }
    bytes
}

/// The text of an optional text, empty where there is none.
fn str_or_empty<'a>(text: Option<&'a str>) -> (given: &'a str)
    ensures
        given@ == text_or_empty(text),
{
    match text {
        Some(text) => text,
        None => "",
    }
}

/// The contents of an optional text, empty where there is none.
pub open spec fn owned_or_empty(text: Option<String>) -> Seq<char> {
    match text {
        Some(text) => text@,
        None => ""@,
    }
}

fn owned_str_or_empty(text: &Option<String>) -> (given: &str)
    ensures
        given@ == owned_or_empty(*text),
{
    match text {
        Some(text) => text.as_str(),
        None => "",
    }
}

/// The bytes whose hash ranks a cluster. What a request does not say counts as empty.
pub fn pulsar_hash_input(
    seed: Option<&str>,
    routing_key: &Option<String>,
    model_id: &str,
    cache_affinity_key: Option<&str>,
    cluster_id: &str,
) -> (bytes: Vec<u8>)
    ensures
        bytes@ == hash_input(
            ranking_fields(
                text_or_empty(seed),
                owned_or_empty(*routing_key),
                model_id@,
                text_or_empty(cache_affinity_key),
                cluster_id@,
            ),
        ),
{
    let given_seed: &str = str_or_empty(seed);
    let given_routing_key: &str = owned_str_or_empty(routing_key);
    let given_key: &str = str_or_empty(cache_affinity_key);
    let mut bytes: Vec<u8> = namespace_bytes(given_seed, given_routing_key, model_id);
    append_tagged(&mut bytes, "cache_affinity_key", given_key.as_bytes());
    append_tagged(&mut bytes, "cluster_id", cluster_id.as_bytes());
    proof {
        let fields = namespace_fields(given_seed@, given_routing_key@, model_id@);
        let key = (encode_utf8("cache_affinity_key"@), encode_utf8(given_key@));
        lemma_hash_input_push(fields, key);
        lemma_hash_input_push(
            fields.push(key),
            (encode_utf8("cluster_id"@), encode_utf8(cluster_id@)),
        );
    }
    bytes
}

/// The hash that ranks a cluster for a request.
pub fn pulsar_hash64(
    seed: Option<&str>,
    routing_key: &Option<String>,
    model_id: &str,
    cache_affinity_key: Option<&str>,
    cluster_id: &str,
) -> (hash: u64)
    ensures
        hash == xxh3_64_of(
            hash_input(
                ranking_fields(
                    text_or_empty(seed),
                    owned_or_empty(*routing_key),
                    model_id@,
                    text_or_empty(cache_affinity_key),
                    cluster_id@,
                ),
            ),
        ),
{
    let bytes: Vec<u8> = pulsar_hash_input(
        seed,
        routing_key,
        model_id,
        cache_affinity_key,
        cluster_id,
    );
    hash_bytes(bytes.as_slice())
}

/// The bytes whose hash gives a virtual node of a cluster its place on the ring of a routing
/// target. What is not set counts as empty.
pub fn virtual_node_hash_input(
    config: &WaitAndWidenConfig,
    request: &LoadBalancerRequest,
    candidate: &RoutedClusterSnapshot,
    virtual_node: usize,
) -> (bytes: Vec<u8>)
    ensures
        bytes@ == hash_input(
            virtual_node_fields(
                owned_or_empty(config.seed),
                owned_or_empty(request.routing_target.routing_key),
                request.routing_target.model_id@,
                candidate.cluster_id@,
                virtual_node as u64,
            ),
        ),
{
    let seed: &str = owned_str_or_empty(&config.seed);
    let routing_key: &str = owned_str_or_empty(&request.routing_target.routing_key);
    let model_id: &str = request.routing_target.model_id.as_str();
    let cluster_id: &str = candidate.cluster_id.as_str();
    let mut bytes: Vec<u8> = namespace_bytes(seed, routing_key, model_id);
    let node: Vec<u8> = u64_to_le_bytes(virtual_node as u64);
    append_tagged(&mut bytes, "cluster_id", cluster_id.as_bytes());
    append_tagged(&mut bytes, "virtual_node", node.as_slice());
    proof {
        let fields = namespace_fields(seed@, routing_key@, model_id@);
        let cluster = (encode_utf8("cluster_id"@), encode_utf8(cluster_id@));
        lemma_hash_input_push(fields, cluster);
        lemma_hash_input_push(fields.push(cluster), (encode_utf8("virtual_node"@), node@));
    }
    bytes
}

/// The place of a virtual node of a cluster on the ring of a routing target.
pub fn cache_affinity_virtual_node_hash(
    config: &WaitAndWidenConfig,
    request: &LoadBalancerRequest,
    candidate: &RoutedClusterSnapshot,
    virtual_node: usize,
) -> (hash: u64)
    ensures
        hash == xxh3_64_of(
            hash_input(
                virtual_node_fields(
                    owned_or_empty(config.seed),
                    owned_or_empty(request.routing_target.routing_key),
                    request.routing_target.model_id@,
                    candidate.cluster_id@,
                    virtual_node as u64,
                ),
            ),
        ),
{
    let bytes: Vec<u8> = virtual_node_hash_input(config, request, candidate, virtual_node);
    hash_bytes(bytes.as_slice())
}

/// Whether every value is short enough for its length to be written down.
pub open spec fn values_fit(fields: Seq<(Seq<u8>, Seq<u8>)>) -> bool {
    forall|i: int| 0 <= i < fields.len() ==> (#[trigger] fields[i]).1.len() <= u64::MAX
}

/// Whether two lists of fields have the same tags.
pub open spec fn same_tags(
    a: Seq<(Seq<u8>, Seq<u8>)>,
    b: Seq<(Seq<u8>, Seq<u8>)>,
) -> bool {
    &&& a.len() == b.len()
    &&& forall|i: int| 0 <= i < a.len() ==> (#[trigger] a[i]).0 == b[i].0
}

proof fn lemma_tagged_apart(
    tag: Seq<u8>,
    a: Seq<u8>,
    b: Seq<u8>,
    after_a: Seq<u8>,
    after_b: Seq<u8>,
)
    requires
        a.len() <= u64::MAX,
        b.len() <= u64::MAX,
        tagged(tag, a) + after_a == tagged(tag, b) + after_b,
    ensures
        a == b,
        after_a == after_b,
{
    lemma_auto_spec_u64_to_from_le_bytes();
    let whole = tagged(tag, a) + after_a;
    let start = tag.len() as int + 1;
    let length_a = spec_u64_to_le_bytes(a.len() as u64);
    let length_b = spec_u64_to_le_bytes(b.len() as u64);
    assert(whole.subrange(start, start + 8) =~= length_a);
    assert((tagged(tag, b) + after_b).subrange(start, start + 8) =~= length_b);
    assert(spec_u64_from_le_bytes(length_a) == a.len() as u64);
    assert(spec_u64_from_le_bytes(length_b) == b.len() as u64);
    assert(a.len() == b.len());
    let end = start + 8 + a.len();
    assert(whole.subrange(start + 8, end) =~= a);
    assert((tagged(tag, b) + after_b).subrange(start + 8, end) =~= b);
    assert(whole.subrange(end, whole.len() as int) =~= after_a);
    assert((tagged(tag, b) + after_b).subrange(end, whole.len() as int) =~= after_b);
}

proof fn lemma_tagged_values_apart(a: Seq<(Seq<u8>, Seq<u8>)>, b: Seq<(Seq<u8>, Seq<u8>)>)
    requires
        same_tags(a, b),
        values_fit(a),
        values_fit(b),
        tagged_values(a) == tagged_values(b),
    ensures
        a == b,
    decreases a.len(),
{
    if a.len() > 0 {
        let rest_a = a.drop_first();
        let rest_b = b.drop_first();
        assert(a[0].0 == b[0].0);
        lemma_tagged_apart(
            a[0].0,
            a[0].1,
            b[0].1,
            tagged_values(rest_a),
            tagged_values(rest_b),
        );
        assert forall|i: int| 0 <= i < rest_a.len() implies (#[trigger] rest_a[i]).0 == rest_b[i].0
            && rest_a[i].1.len() <= u64::MAX by {
            assert(rest_a[i] == a[i + 1]);
            assert(rest_b[i] == b[i + 1]);
        }
        assert forall|i: int| 0 <= i < rest_b.len() implies (#[trigger] rest_b[i]).1.len()
            <= u64::MAX by {
            assert(rest_b[i] == b[i + 1]);
        }
        lemma_tagged_values_apart(rest_a, rest_b);
        assert forall|i: int| 0 <= i < a.len() implies a[i] == b[i] by {
            if i > 0 {
                assert(a[i] == rest_a[i - 1]);
                assert(b[i] == rest_b[i - 1]);
            }
        }
    }
    assert(a =~= b);
}

/// What is hashed tells fields apart: with the same tags, and values whose lengths can be written
/// down, only the same values give the same bytes. No value can pass for a part of its neighbour.
pub proof fn hash_input_tells_values_apart(
    a: Seq<(Seq<u8>, Seq<u8>)>,
    b: Seq<(Seq<u8>, Seq<u8>)>,
)
    requires
        same_tags(a, b),
        values_fit(a),
        values_fit(b),
        hash_input(a) == hash_input(b),
    ensures
        a == b,
{
    assert(hash_input(a).subrange(1, hash_input(a).len() as int) =~= tagged_values(a));
    assert(hash_input(b).subrange(1, hash_input(b).len() as int) =~= tagged_values(b));
    lemma_tagged_values_apart(a, b);
}

/// The seed, the routing key, the model, the cache affinity key and the cluster all have a part in
/// what a cluster is ranked by: where one of them differs, other bytes are hashed.
pub proof fn rankings_go_by_every_part(
    seed: Seq<char>,
    routing_key: Seq<char>,
    model_id: Seq<char>,
    key: Seq<char>,
    cluster_id: Seq<char>,
    other_seed: Seq<char>,
    other_routing_key: Seq<char>,
    other_model_id: Seq<char>,
    other_key: Seq<char>,
    other_cluster_id: Seq<char>,
)
    requires
        values_fit(ranking_fields(seed, routing_key, model_id, key, cluster_id)),
        values_fit(
            ranking_fields(
                other_seed,
                other_routing_key,
                other_model_id,
                other_key,
                other_cluster_id,
            ),
        ),
        hash_input(ranking_fields(seed, routing_key, model_id, key, cluster_id)) == hash_input(
            ranking_fields(
                other_seed,
                other_routing_key,
                other_model_id,
                other_key,
                other_cluster_id,
            ),
        ),
    ensures
        seed == other_seed,
        routing_key == other_routing_key,
        model_id == other_model_id,
        key == other_key,
        cluster_id == other_cluster_id,
{
    let a = ranking_fields(seed, routing_key, model_id, key, cluster_id);
    let b = ranking_fields(
        other_seed,
        other_routing_key,
        other_model_id,
        other_key,
        other_cluster_id,
    );
    hash_input_tells_values_apart(a, b);
    assert(a[0].1 == b[0].1 && a[1].1 == b[1].1 && a[2].1 == b[2].1 && a[3].1 == b[3].1 && a[4].1
        == b[4].1);
    lemma_same_text(seed, other_seed);
    lemma_same_text(routing_key, other_routing_key);
    lemma_same_text(model_id, other_model_id);
    lemma_same_text(key, other_key);
    lemma_same_text(cluster_id, other_cluster_id);
}

proof fn lemma_same_text(a: Seq<char>, b: Seq<char>)
    requires
        encode_utf8(a) == encode_utf8(b),
    ensures
        a == b,
{
    encode_utf8_decode_utf8(a);
    encode_utf8_decode_utf8(b);
    assert(decode_utf8(encode_utf8(a)) == a);
}

/// The seed, the routing key, the model, the cluster and the number of the virtual node all have a
/// part in the place of a virtual node: where one of them differs, other bytes are hashed.
pub proof fn virtual_nodes_go_by_every_part(
    seed: Seq<char>,
    routing_key: Seq<char>,
    model_id: Seq<char>,
    cluster_id: Seq<char>,
    virtual_node: u64,
    other_seed: Seq<char>,
    other_routing_key: Seq<char>,
    other_model_id: Seq<char>,
    other_cluster_id: Seq<char>,
    other_virtual_node: u64,
)
    requires
        values_fit(virtual_node_fields(seed, routing_key, model_id, cluster_id, virtual_node)),
        values_fit(
            virtual_node_fields(
                other_seed,
                other_routing_key,
                other_model_id,
                other_cluster_id,
                other_virtual_node,
            ),
        ),
        hash_input(virtual_node_fields(seed, routing_key, model_id, cluster_id, virtual_node))
            == hash_input(
            virtual_node_fields(
                other_seed,
                other_routing_key,
                other_model_id,
                other_cluster_id,
                other_virtual_node,
            ),
        ),
    ensures
        seed == other_seed,
        routing_key == other_routing_key,
        model_id == other_model_id,
        cluster_id == other_cluster_id,
        virtual_node == other_virtual_node,
{
    let a = virtual_node_fields(seed, routing_key, model_id, cluster_id, virtual_node);
    let b = virtual_node_fields(
        other_seed,
        other_routing_key,
        other_model_id,
        other_cluster_id,
        other_virtual_node,
    );
    hash_input_tells_values_apart(a, b);
    assert(a[0].1 == b[0].1 && a[1].1 == b[1].1 && a[2].1 == b[2].1 && a[3].1 == b[3].1 && a[4].1
        == b[4].1);
    lemma_same_text(seed, other_seed);
    lemma_same_text(routing_key, other_routing_key);
    lemma_same_text(model_id, other_model_id);
    lemma_same_text(cluster_id, other_cluster_id);
    lemma_auto_spec_u64_to_from_le_bytes();
    assert(spec_u64_from_le_bytes(spec_u64_to_le_bytes(virtual_node)) == virtual_node);
}

/// Two clusters, requests or seeds hash the same bytes only if they agree in every part; a part that is
/// left out counts as empty.
pub proof fn hashed_bytes_tell_every_part_apart(
    seed: Option<&str>,
    routing_key: Option<String>,
    model_id: &str,
    key: Option<&str>,
    cluster_id: &str,
    bytes: Vec<u8>,
    other_seed: Option<&str>,
    other_routing_key: Option<String>,
    other_model_id: &str,
    other_key: Option<&str>,
    other_cluster_id: &str,
    other_bytes: Vec<u8>,
)
    requires
        call_ensures(pulsar_hash_input, (seed, &routing_key, model_id, key, cluster_id), bytes),
        call_ensures(
            pulsar_hash_input,
            (other_seed, &other_routing_key, other_model_id, other_key, other_cluster_id),
            other_bytes,
        ),
        bytes@ == other_bytes@,
        values_fit(
            ranking_fields(
                text_or_empty(seed),
                owned_or_empty(routing_key),
                model_id@,
                text_or_empty(key),
                cluster_id@,
            ),
        ),
        values_fit(
            ranking_fields(
                text_or_empty(other_seed),
                owned_or_empty(other_routing_key),
                other_model_id@,
                text_or_empty(other_key),
                other_cluster_id@,
            ),
        ),
    ensures
        seed is Some && other_seed is Some ==> seed->0@ == other_seed->0@,
        seed is None && other_seed is Some ==> other_seed->0@ == ""@,
        routing_key is Some && other_routing_key is Some ==> routing_key->0@
            == other_routing_key->0@,
        routing_key is None && other_routing_key is Some ==> other_routing_key->0@ == ""@,
        model_id@ == other_model_id@,
        key is Some && other_key is Some ==> key->0@ == other_key->0@,
        key is None && other_key is Some ==> other_key->0@ == ""@,
        cluster_id@ == other_cluster_id@,
        bytes@[0] == 1,
{
    rankings_go_by_every_part(
        text_or_empty(seed),
        owned_or_empty(routing_key),
        model_id@,
        text_or_empty(key),
        cluster_id@,
        text_or_empty(other_seed),
        owned_or_empty(other_routing_key),
        other_model_id@,
        text_or_empty(other_key),
        other_cluster_id@,
    );
}

/// Two virtual nodes hash the same bytes only if they are the same node of the same cluster, for the
/// same target and seed.
pub proof fn virtual_nodes_are_told_apart(
    config: WaitAndWidenConfig,
    request: LoadBalancerRequest,
    candidate: RoutedClusterSnapshot,
    node: usize,
    bytes: Vec<u8>,
    other_candidate: RoutedClusterSnapshot,
    other_node: usize,
    other_bytes: Vec<u8>,
)
    requires
        call_ensures(virtual_node_hash_input, (&config, &request, &candidate, node), bytes),
        call_ensures(
            virtual_node_hash_input,
            (&config, &request, &other_candidate, other_node),
            other_bytes,
        ),
        bytes@ == other_bytes@,
        values_fit(
            virtual_node_fields(
                owned_or_empty(config.seed),
                owned_or_empty(request.routing_target.routing_key),
                request.routing_target.model_id@,
                candidate.cluster_id@,
                node as u64,
            ),
        ),
        values_fit(
            virtual_node_fields(
                owned_or_empty(config.seed),
                owned_or_empty(request.routing_target.routing_key),
                request.routing_target.model_id@,
                other_candidate.cluster_id@,
                other_node as u64,
            ),
        ),
    ensures
        candidate.cluster_id@ == other_candidate.cluster_id@,
        node == other_node,
        bytes@[0] == 1,
{
    virtual_nodes_go_by_every_part(
        owned_or_empty(config.seed),
        owned_or_empty(request.routing_target.routing_key),
        request.routing_target.model_id@,
        candidate.cluster_id@,
        node as u64,
        owned_or_empty(config.seed),
        owned_or_empty(request.routing_target.routing_key),
        request.routing_target.model_id@,
        other_candidate.cluster_id@,
        other_node as u64,
    );
}

} // verus!
