//! The routing topology and its configuration loader.
//!
//! A topology names one inbound listening address with its service map, and
//! zero or more outbound tunnels, each binding a service name to a local
//! listen address and a remote proxy address. It is built once, validated
//! here, and never mutated afterwards.
//!
//! The configuration arrives as a YAML document. The YAML parser is an
//! outside collaborator; its parse and its accessors depend on their
//! arguments alone, so their results carry names below, and the walk over the
//! parsed document is contracted exactly over those names: the loader
//! succeeds if and only if the document has the topology shape, and then
//! yields exactly the topology the document describes.

use vstd::prelude::*;
use crate::namemap::NameMap;
use crate::namemap::map_of_entries;

verus! {

/// One outbound tunnel: where to listen locally and which remote proxy to
/// dial.
pub struct OutgoingConfig {
    pub local_address: String,
    pub proxy_address: String,
}

impl View for OutgoingConfig {
    type V = (Seq<char>, Seq<char>);

    open spec fn view(&self) -> (Seq<char>, Seq<char>) {
        (self.local_address@, self.proxy_address@)
    }
}

/// The inbound side: the listening address and the map from service name to
/// backend address.
pub struct IncommingConfig {
    pub address: String,
    pub services: NameMap<String>,
}

/// A whole topology: one inbound side, and one outbound tunnel per service
/// name.
pub struct ProxyConfig {
    pub incomming: IncommingConfig,
    pub outgoing: NameMap<OutgoingConfig>,
}

impl ProxyConfig {
    /// Both maps bind each service name at most once.
    pub open spec fn wf(self) -> bool {
        &&& self.incomming.services.wf()
        &&& self.outgoing.wf()
    }
}

/// The YAML document node of the outside parser, carried opaquely between the
/// trusted accessors below.
#[verifier::external_type_specification]
#[verifier::external_body]
pub struct ExYaml(yaml_rust2::Yaml);

/// The documents that parsing a configuration text yields, when it parses.
pub uninterp spec fn spec_yaml_docs(source: Seq<char>) -> Option<Seq<yaml_rust2::Yaml>>;

/// The node a mapping node binds to a key; the bad-value node elsewhere.
pub uninterp spec fn spec_yaml_index(node: yaml_rust2::Yaml, key: Seq<char>) -> yaml_rust2::Yaml;

/// The scalar a string node carries; nothing for any other node.
pub uninterp spec fn spec_yaml_string(node: yaml_rust2::Yaml) -> Option<Seq<char>>;

/// The key/value pairs of a mapping node, in the mapping's own order; nothing
/// for any other node.
pub uninterp spec fn spec_yaml_hash(node: yaml_rust2::Yaml) -> Option<
    Seq<(yaml_rust2::Yaml, yaml_rust2::Yaml)>,
>;

/// Relies on yaml_rust2::YamlLoader::load_from_str: parses the string as a
/// set of YAML documents, or fails on a scan error. The outcome depends on
/// the source text alone, named `spec_yaml_docs`.
#[verifier::external_body]
fn yaml_load(source: &str) -> (r: Option<Vec<yaml_rust2::Yaml>>)
    ensures
        r is Some <==> spec_yaml_docs(source@) is Some,
        r matches Some(docs) ==> Some(docs@) == spec_yaml_docs(source@),
{
    yaml_rust2::YamlLoader::load_from_str(source).ok()
}

/// Relies on yaml_rust2's Index<&str> for Yaml: the value bound to the key
/// when the node is a mapping that holds it, and the bad-value node
/// otherwise. The result depends on the node and the key alone, named
/// `spec_yaml_index`.
#[verifier::external_body]
fn yaml_index<'a>(node: &'a yaml_rust2::Yaml, key: &str) -> (r: &'a yaml_rust2::Yaml)
    ensures
        *r == spec_yaml_index(*node, key@),
{
    &node[key]
}

/// Relies on yaml_rust2::Yaml::as_str: the scalar carried by a string node,
/// and nothing for any other node. The result depends on the node alone,
/// named `spec_yaml_string`.
#[verifier::external_body]
fn yaml_as_string(node: &yaml_rust2::Yaml) -> (r: Option<String>)
    ensures
        r is Some <==> spec_yaml_string(*node) is Some,
        r matches Some(s) ==> Some(s@) == spec_yaml_string(*node),
{
    node.as_str().map(|s| s.to_owned())
}

/// Relies on yaml_rust2::Yaml::as_hash: the key/value pairs of a mapping
/// node, in the mapping's own insertion order, and nothing for any other
/// node. The result depends on the node alone, named `spec_yaml_hash`.
#[verifier::external_body]
fn yaml_hash_entries(node: &yaml_rust2::Yaml) -> (r: Option<
    Vec<(yaml_rust2::Yaml, yaml_rust2::Yaml)>,
>)
    ensures
        r is Some <==> spec_yaml_hash(*node) is Some,
        r matches Some(entries) ==> Some(entries@) == spec_yaml_hash(*node),
{
    node.as_hash().map(|h| h.iter().map(|(k, v)| (k.clone(), v.clone())).collect())
}

/// The first document of a parsed configuration text.
pub open spec fn spec_config_doc(source: Seq<char>) -> yaml_rust2::Yaml
    recommends
        spec_yaml_docs(source) is Some,
        spec_yaml_docs(source).unwrap().len() > 0,
{
    spec_yaml_docs(source).unwrap()[0]
}

/// The document's inbound node.
pub open spec fn spec_config_inbound_node(source: Seq<char>) -> yaml_rust2::Yaml {
    spec_yaml_index(spec_config_doc(source), "incomming"@)
}

/// The inbound node's service map node.
pub open spec fn spec_config_services_node(source: Seq<char>) -> yaml_rust2::Yaml {
    spec_yaml_index(spec_config_inbound_node(source), "services"@)
}

/// The document's outbound tunnels node.
pub open spec fn spec_config_outgoing_node(source: Seq<char>) -> yaml_rust2::Yaml {
    spec_yaml_index(spec_config_doc(source), "outgoing"@)
}

/// Whether every key and value of these mapping entries is a string.
pub open spec fn all_string_entries(entries: Seq<(yaml_rust2::Yaml, yaml_rust2::Yaml)>) -> bool {
    forall|i: int|
        0 <= i < entries.len() ==> {
            &&& spec_yaml_string((#[trigger] entries[i]).0) is Some
            &&& spec_yaml_string(entries[i].1) is Some
        }
}

/// The (name, value) strings of mapping entries whose keys and values are all
/// strings.
pub open spec fn string_pairs_view(entries: Seq<(yaml_rust2::Yaml, yaml_rust2::Yaml)>) -> Seq<
    (Seq<char>, Seq<char>),
>
    recommends
        all_string_entries(entries),
{
    entries.map(
        |_i: int, e: (yaml_rust2::Yaml, yaml_rust2::Yaml)|
            (spec_yaml_string(e.0).unwrap(), spec_yaml_string(e.1).unwrap()),
    )
}

/// Whether every tunnel entry has a string name and string `local_address`
/// and `proxy_address` fields.
pub open spec fn all_tunnel_entries(entries: Seq<(yaml_rust2::Yaml, yaml_rust2::Yaml)>) -> bool {
    forall|i: int|
        0 <= i < entries.len() ==> {
            &&& spec_yaml_string((#[trigger] entries[i]).0) is Some
            &&& spec_yaml_string(spec_yaml_index(entries[i].1, "local_address"@)) is Some
            &&& spec_yaml_string(spec_yaml_index(entries[i].1, "proxy_address"@)) is Some
        }
}

/// The (name, (local address, proxy address)) strings of well-shaped tunnel
/// entries.
pub open spec fn tunnel_triples_view(entries: Seq<(yaml_rust2::Yaml, yaml_rust2::Yaml)>) -> Seq<
    (Seq<char>, (Seq<char>, Seq<char>)),
>
    recommends
        all_tunnel_entries(entries),
{
    entries.map(
        |_i: int, e: (yaml_rust2::Yaml, yaml_rust2::Yaml)|
            (
                spec_yaml_string(e.0).unwrap(),
                (
                    spec_yaml_string(spec_yaml_index(e.1, "local_address"@)).unwrap(),
                    spec_yaml_string(spec_yaml_index(e.1, "proxy_address"@)).unwrap(),
                ),
            ),
    )
}

/// Whether a configuration text parses into a document of the topology shape:
/// at least one document; an `incomming` node with a string `address` and a
/// `services` mapping of strings; and an `outgoing` mapping whose every entry
/// has a string name and string `local_address` and `proxy_address`.
pub open spec fn spec_config_shape(source: Seq<char>) -> bool {
    &&& spec_yaml_docs(source) is Some
    &&& spec_yaml_docs(source).unwrap().len() > 0
    &&& spec_yaml_string(spec_yaml_index(spec_config_inbound_node(source), "address"@)) is Some
    &&& spec_yaml_hash(spec_config_services_node(source)) is Some
    &&& all_string_entries(spec_yaml_hash(spec_config_services_node(source)).unwrap())
    &&& spec_yaml_hash(spec_config_outgoing_node(source)) is Some
    &&& all_tunnel_entries(spec_yaml_hash(spec_config_outgoing_node(source)).unwrap())
}

/// The inbound listening address a well-shaped document names.
pub open spec fn spec_config_address(source: Seq<char>) -> Seq<char>
    recommends
        spec_config_shape(source),
{
    spec_yaml_string(spec_yaml_index(spec_config_inbound_node(source), "address"@)).unwrap()
}

/// The service map a well-shaped document describes, later entries replacing
/// earlier ones with the same name.
pub open spec fn spec_config_services(source: Seq<char>) -> Map<Seq<char>, Seq<char>>
    recommends
        spec_config_shape(source),
{
    map_of_entries(string_pairs_view(spec_yaml_hash(spec_config_services_node(source)).unwrap()))
}

/// The tunnel map a well-shaped document describes, later entries replacing
/// earlier ones with the same name.
pub open spec fn spec_config_tunnels(source: Seq<char>) -> Map<Seq<char>, (Seq<char>, Seq<char>)>
    recommends
        spec_config_shape(source),
{
    map_of_entries(
        tunnel_triples_view(spec_yaml_hash(spec_config_outgoing_node(source)).unwrap()),
    )
}

/// The map described by (name, value) pairs, where a later pair for the same
/// name replaces an earlier one.
pub open spec fn spec_string_map(pairs: Seq<(String, String)>) -> Map<Seq<char>, Seq<char>>
    decreases pairs.len(),
{
    if pairs.len() == 0 {
        Map::empty()
    } else {
        spec_string_map(pairs.drop_last()).insert(pairs.last().0@, pairs.last().1@)
    }
}

/// The map described by (name, local address, proxy address) triples, where a
/// later triple for the same name replaces an earlier one.
pub open spec fn spec_tunnel_map(tunnels: Seq<(String, String, String)>) -> Map<
    Seq<char>,
    (Seq<char>, Seq<char>),
>
    decreases tunnels.len(),
{
    if tunnels.len() == 0 {
        Map::empty()
    } else {
        spec_tunnel_map(tunnels.drop_last()).insert(
            tunnels.last().0@,
            (tunnels.last().1@, tunnels.last().2@),
        )
    }
}

/// The (name, value) views of a pair sequence.
pub open spec fn pairs_view(pairs: Seq<(String, String)>) -> Seq<(Seq<char>, Seq<char>)> {
    pairs.map(|_i: int, p: (String, String)| (p.0@, p.1@))
}

/// The (name, (local address, proxy address)) views of a triple sequence.
pub open spec fn triples_view(tunnels: Seq<(String, String, String)>) -> Seq<
    (Seq<char>, (Seq<char>, Seq<char>)),
> {
    tunnels.map(|_i: int, t: (String, String, String)| (t.0@, (t.1@, t.2@)))
}

proof fn lemma_string_map_from_pairs(pairs: Seq<(String, String)>)
    ensures
        spec_string_map(pairs) == map_of_entries(pairs_view(pairs)),
    decreases pairs.len(),
{
    if pairs.len() == 0 {
        assert(pairs_view(pairs) =~= Seq::<(Seq<char>, Seq<char>)>::empty());
    } else {
        lemma_string_map_from_pairs(pairs.drop_last());
        assert(pairs_view(pairs).drop_last() =~= pairs_view(pairs.drop_last()));
        assert(pairs_view(pairs).last() == (pairs.last().0@, pairs.last().1@));
    }
}

proof fn lemma_tunnel_map_from_triples(tunnels: Seq<(String, String, String)>)
    ensures
        spec_tunnel_map(tunnels) == map_of_entries(triples_view(tunnels)),
    decreases tunnels.len(),
{
    if tunnels.len() == 0 {
        assert(triples_view(tunnels) =~= Seq::<(Seq<char>, (Seq<char>, Seq<char>))>::empty());
    } else {
        lemma_tunnel_map_from_triples(tunnels.drop_last());
        assert(triples_view(tunnels).drop_last() =~= triples_view(tunnels.drop_last()));
        assert(triples_view(tunnels).last() == (tunnels.last().0@, (
        tunnels.last().1@,
        tunnels.last().2@,
        )));
    }
}

/// Reads the (key, value) string pairs of a YAML mapping node: exactly the
/// node's entries, in order, when the node is a mapping whose keys and values
/// are all strings; nothing otherwise.
fn load_string_pairs(node: &yaml_rust2::Yaml) -> (r: Option<Vec<(String, String)>>)
    ensures
        r is Some <==> (spec_yaml_hash(*node) is Some && all_string_entries(
            spec_yaml_hash(*node).unwrap(),
        )),
        r matches Some(pairs) ==> pairs_view(pairs@) == string_pairs_view(
            spec_yaml_hash(*node).unwrap(),
        ),
{
    let entries = match yaml_hash_entries(node) {
        Some(entries) => entries,
        None => {
            return None;
        },
    };
    let mut pairs: Vec<(String, String)> = Vec::new();
    let n = entries.len();
    for i in 0..n
        invariant
            n == entries@.len(),
            Some(entries@) == spec_yaml_hash(*node),
            pairs@.len() == i,
            forall|j: int|
                0 <= j < i ==> {
                    &&& spec_yaml_string((#[trigger] entries@[j]).0) is Some
                    &&& spec_yaml_string(entries@[j].1) is Some
                    &&& pairs@[j].0@ == spec_yaml_string(entries@[j].0).unwrap()
                    &&& pairs@[j].1@ == spec_yaml_string(entries@[j].1).unwrap()
                },
    {
        let key = match yaml_as_string(&entries[i].0) {
            Some(key) => key,
            None => {
                proof {
                    assert(!all_string_entries(entries@)) by {
                        assert(spec_yaml_string(entries@[i as int].0) is None);
                    }
                }
                return None;
            },
        };
        let value = match yaml_as_string(&entries[i].1) {
            Some(value) => value,
            None => {
                proof {
                    assert(!all_string_entries(entries@)) by {
                        assert(spec_yaml_string(entries@[i as int].1) is None);
                    }
                }
                return None;
            },
        };
        pairs.push((key, value));
    }
    proof {
        assert(all_string_entries(entries@));
        assert(pairs_view(pairs@) =~= string_pairs_view(entries@));
    }
    Some(pairs)
}

impl ProxyConfig {
    /// Builds a topology from already-extracted plain values: the inbound
    /// listening address, the (service name, backend address) pairs of the
    /// service map, and the (service name, local address, proxy address)
    /// triples of the tunnels. A later pair or triple replaces an earlier one
    /// with the same name.
    pub fn from_parts(
        address: String,
        services: Vec<(String, String)>,
        tunnels: Vec<(String, String, String)>,
    ) -> (r: ProxyConfig)
        ensures
            r.wf(),
            r.incomming.address@ == address@,
            r.incomming.services@ == spec_string_map(services@),
            r.outgoing@ == spec_tunnel_map(tunnels@),
    {
        let mut service_map: NameMap<String> = NameMap::new();
        let n = services.len();
        for i in 0..n
            invariant
                n == services@.len(),
                service_map.wf(),
                service_map@ == spec_string_map(services@.take(i as int)),
        {
            let key = services[i].0.clone();
            let value = services[i].1.clone();
            service_map.insert(key, value);
            proof {
                assert(services@.take(i + 1 as int).drop_last() =~= services@.take(i as int));
                assert(services@.take(i + 1 as int).last() == services@[i as int]);
            }
        }
        proof {
            assert(services@.take(n as int) =~= services@);
        }
        let mut outgoing: NameMap<OutgoingConfig> = NameMap::new();
        let m = tunnels.len();
        for i in 0..m
            invariant
                m == tunnels@.len(),
                outgoing.wf(),
                outgoing@ == spec_tunnel_map(tunnels@.take(i as int)),
        {
            let service_name = tunnels[i].0.clone();
            let local_address = tunnels[i].1.clone();
            let proxy_address = tunnels[i].2.clone();
            outgoing.insert(service_name, OutgoingConfig { local_address, proxy_address });
            proof {
                assert(tunnels@.take(i + 1 as int).drop_last() =~= tunnels@.take(i as int));
                assert(tunnels@.take(i + 1 as int).last() == tunnels@[i as int]);
            }
        }
        proof {
            assert(tunnels@.take(m as int) =~= tunnels@);
        }
        ProxyConfig { incomming: IncommingConfig { address, services: service_map }, outgoing }
    }

    /// Builds a validated topology from the text of a YAML configuration
    /// document shaped as: `incomming` with an `address` string and a
    /// `services` string map, and `outgoing` mapping each service name to its
    /// `local_address` and `proxy_address`. Succeeds exactly on documents of
    /// that shape — loading is all-or-nothing — and then yields exactly the
    /// address, service map and tunnel map the document describes.
    pub fn from_yaml_str(source: &str) -> (r: Option<ProxyConfig>)
        ensures
            r is Some <==> spec_config_shape(source@),
            r matches Some(c) ==> ({
                &&& c.wf()
                &&& c.incomming.address@ == spec_config_address(source@)
                &&& c.incomming.services@ == spec_config_services(source@)
                &&& c.outgoing@ == spec_config_tunnels(source@)
            }),
    {
        let docs = match yaml_load(source) {
            Some(docs) => docs,
            None => {
                return None;
            },
        };
        if docs.len() == 0 {
            return None;
        }
        let doc = &docs[0];
        proof {
            assert(*doc == spec_config_doc(source@));
        }
        let incomming_node = yaml_index(doc, "incomming");
        let address = match yaml_as_string(yaml_index(incomming_node, "address")) {
            Some(address) => address,
            None => {
                return None;
            },
        };
        let services = match load_string_pairs(yaml_index(incomming_node, "services")) {
            Some(services) => services,
            None => {
                return None;
            },
        };
        let outgoing_node = yaml_index(doc, "outgoing");
        let entries = match yaml_hash_entries(outgoing_node) {
            Some(entries) => entries,
            None => {
                return None;
            },
        };
        let mut tunnels: Vec<(String, String, String)> = Vec::new();
        let n = entries.len();
        for i in 0..n
            invariant
                n == entries@.len(),
                Some(entries@) == spec_yaml_hash(spec_config_outgoing_node(source@)),
                tunnels@.len() == i,
                forall|j: int|
                    0 <= j < i ==> {
                        &&& spec_yaml_string((#[trigger] entries@[j]).0) is Some
                        &&& spec_yaml_string(
                            spec_yaml_index(entries@[j].1, "local_address"@),
                        ) is Some
                        &&& spec_yaml_string(
                            spec_yaml_index(entries@[j].1, "proxy_address"@),
                        ) is Some
                        &&& tunnels@[j].0@ == spec_yaml_string(entries@[j].0).unwrap()
                        &&& tunnels@[j].1@ == spec_yaml_string(
                            spec_yaml_index(entries@[j].1, "local_address"@),
                        ).unwrap()
                        &&& tunnels@[j].2@ == spec_yaml_string(
                            spec_yaml_index(entries@[j].1, "proxy_address"@),
                        ).unwrap()
                    },
        {
            let service_name = match yaml_as_string(&entries[i].0) {
                Some(service_name) => service_name,
                None => {
                    proof {
                        assert(!all_tunnel_entries(entries@)) by {
                            assert(spec_yaml_string(entries@[i as int].0) is None);
                        }
                    }
                    return None;
                },
            };
            let local_address = match yaml_as_string(yaml_index(&entries[i].1, "local_address")) {
                Some(local_address) => local_address,
                None => {
                    proof {
                        assert(!all_tunnel_entries(entries@)) by {
                            assert(spec_yaml_string(
                                spec_yaml_index(entries@[i as int].1, "local_address"@),
                            ) is None);
                        }
                    }
                    return None;
                },
            };
            let proxy_address = match yaml_as_string(yaml_index(&entries[i].1, "proxy_address")) {
                Some(proxy_address) => proxy_address,
                None => {
                    proof {
                        assert(!all_tunnel_entries(entries@)) by {
                            assert(spec_yaml_string(
                                spec_yaml_index(entries@[i as int].1, "proxy_address"@),
                            ) is None);
                        }
                    }
                    return None;
                },
            };
            tunnels.push((service_name, local_address, proxy_address));
        }
        proof {
            assert(all_tunnel_entries(entries@));
            assert(triples_view(tunnels@) =~= tunnel_triples_view(entries@));
            lemma_string_map_from_pairs(services@);
            lemma_tunnel_map_from_triples(tunnels@);
        }
        Some(Self::from_parts(address, services, tunnels))
    }
}

} // verus!
