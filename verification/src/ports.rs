use vstd::prelude::*;
use vstd::string::StrSliceExecFns;
use vstd::string::StringExecFns;

use crate::payload::PortBinding;

verus! {

/// How many times `c` occurs in `s`.
pub open spec fn count_char(s: Seq<char>, c: char) -> nat
    decreases s.len(),
{
    if s.len() == 0 {
        0
    } else {
        count_char(s.drop_last(), c) + if s.last() == c {
            1nat
        } else {
            0nat
        }
    }
}

/// A sequence without a single occurrence of `c` counts zero.
proof fn lemma_count_char_zero(s: Seq<char>, c: char)
    requires
        forall|i: int| 0 <= i < s.len() ==> s[i] != c,
    ensures
        count_char(s, c) == 0,
    decreases s.len(),
{
    if s.len() > 0 {
        lemma_count_char_zero(s.drop_last(), c);
    }
}

/// A well-formed port mapping splits into a host part and a container
/// part around its only separator.
pub open spec fn spec_port_split(
    mapping: Seq<char>,
    host: Seq<char>,
    container: Seq<char>,
) -> bool {
    &&& mapping =~= host + seq![':'] + container
    &&& count_char(host, ':') == 0
    &&& count_char(container, ':') == 0
}

/// Splits a port mapping of the exact shape host:container; any other
/// shape (no separator, or more than one) yields nothing, so that the
/// caller publishes no ports at all for it.
pub fn split_port_mapping(mapping: &str) -> (r: Option<(String, String)>)
    ensures
        r is Some <==> count_char(mapping@, ':') == 1,
        r matches Some(p) ==> spec_port_split(mapping@, p.0@, p.1@),
{
    let len = mapping.unicode_len();
    let mut count: usize = 0;
    let mut first: usize = 0;
    let mut i: usize = 0;
    while i < len
        invariant
            i <= len,
            len == mapping@.len(),
            count <= i,
            count == count_char(mapping@.take(i as int), ':'),
            count >= 1 ==> first < i && mapping@[first as int] == ':' && forall|m: int|
                0 <= m < first ==> mapping@[m] != ':',
            count == 1 ==> forall|m: int| first < m < i ==> mapping@[m] != ':',
            count == 0 ==> forall|m: int| 0 <= m < i ==> mapping@[m] != ':',
        decreases len - i,
    {
        proof {
            assert(mapping@.take(i + 1).drop_last() =~= mapping@.take(i as int));
            assert(mapping@.take(i + 1).last() == mapping@[i as int]);
        }
        if mapping.get_char(i) == ':' {
            if count == 0 {
                first = i;
            }
            count += 1;
        }
        i += 1;
    }
    proof {
        assert(mapping@.take(len as int) =~= mapping@);
    }
    if count == 1 {
        let host = mapping.substring_char(0, first).to_owned();
        let container = mapping.substring_char(first + 1, len).to_owned();
        proof {
            assert(mapping@ =~= host@ + seq![':'] + container@);
            lemma_count_char_zero(host@, ':');
            assert forall|m: int| 0 <= m < container@.len() implies container@[m] != ':' by {
                assert(container@[m] == mapping@[first + 1 + m]);
            }
            lemma_count_char_zero(container@, ':');
        }
        Some((host, container))
    } else {
        None
    }
}

/// The exposed-port key derived from a container port: the port text
/// followed by the TCP protocol suffix.
pub open spec fn spec_port_key(container_port: Seq<char>) -> Seq<char> {
    container_port + "/tcp"@
}

/// The ports a created container publishes: the exposed-port keys and,
/// for each key, the host-side bindings.
pub struct PortConfig {
    pub exposed_ports: Vec<String>,
    pub port_bindings: Vec<(String, Vec<PortBinding>)>,
}

/// A port configuration publishing nothing.
pub open spec fn spec_ports_empty(cfg: PortConfig) -> bool {
    &&& cfg.exposed_ports@ =~= Seq::<String>::empty()
    &&& cfg.port_bindings@ =~= Seq::<(String, Vec<PortBinding>)>::empty()
}

/// A port configuration publishing exactly one container port, bound on
/// every host interface to the given host port.
pub open spec fn spec_ports_single(cfg: PortConfig, host: Seq<char>, container: Seq<char>) -> bool {
    &&& cfg.exposed_ports@.len() == 1
    &&& cfg.exposed_ports@[0]@ == spec_port_key(container)
    &&& cfg.port_bindings@.len() == 1
    &&& cfg.port_bindings@[0].0@ == spec_port_key(container)
    &&& cfg.port_bindings@[0].1@.len() == 1
    &&& cfg.port_bindings@[0].1@[0].host_ip matches Some(ip) && ip@ == "0.0.0.0"@
    &&& cfg.port_bindings@[0].1@[0].host_port matches Some(hp) && hp@ == host
}

/// How a port configuration relates to the mapping text it was built
/// from: no mapping, or one without exactly one separator, publishes
/// nothing; a well-formed mapping publishes its one split.
pub open spec fn spec_ports_for_mapping(m_opt: Option<Seq<char>>, cfg: PortConfig) -> bool {
    match m_opt {
        None => spec_ports_empty(cfg),
        Some(m) => if count_char(m, ':') == 1 {
            exists|host: Seq<char>, container: Seq<char>|
                #[trigger] spec_port_split(m, host, container) && spec_ports_single(
                    cfg,
                    host,
                    container,
                )
        } else {
            spec_ports_empty(cfg)
        },
    }
}

/// Builds the port configuration for container creation. A missing
/// mapping, or one that does not split into exactly two parts, publishes
/// no ports; creation still proceeds. A well-formed mapping exposes the
/// container port under its TCP key and binds it on every host interface.
pub fn build_port_config(port_mapping: Option<&String>) -> (cfg: PortConfig)
    ensures
        spec_ports_for_mapping(
            match port_mapping {
                None => None,
                Some(m) => Some(m@),
            },
            cfg,
        ),
{
    match port_mapping {
        None => PortConfig { exposed_ports: Vec::new(), port_bindings: Vec::new() },
        Some(mapping) => {
            match split_port_mapping(mapping.as_str()) {
                None => PortConfig { exposed_ports: Vec::new(), port_bindings: Vec::new() },
                Some((host, container)) => {
                    let ghost gh: Seq<char> = host@;
                    let ghost gc: Seq<char> = container@;
                    let key = container.concat("/tcp");
                    let binding = PortBinding {
                        host_ip: Some("0.0.0.0".to_owned()),
                        host_port: Some(host),
                    };
                    let mut bindings: Vec<PortBinding> = Vec::new();
                    bindings.push(binding);
                    let mut exposed_ports: Vec<String> = Vec::new();
                    exposed_ports.push(key.clone());
                    let mut port_bindings: Vec<(String, Vec<PortBinding>)> = Vec::new();
                    port_bindings.push((key, bindings));
                    let cfg = PortConfig { exposed_ports, port_bindings };
                    proof {
                        assert(spec_port_split(mapping@, gh, gc));
                        assert(spec_ports_single(cfg, gh, gc));
                    }
                    cfg
                },
            }
        },
    }
}

} // verus!
