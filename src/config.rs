use vstd::prelude::*;

use rdkafka::config::ClientConfig;

verus! {

#[verifier::external_type_specification]
#[verifier::external_body]
pub struct ExClientConfig(ClientConfig);

/// The key-value entries that a client configuration holds.
pub uninterp spec fn config_entries(c: ClientConfig) -> Map<Seq<char>, Seq<char>>;

/// Seconds that a metadata fetch or a topic creation may take.
pub const REQUEST_TIMEOUT_SECS: u64 = 30;

/// A configuration without entries.
pub open spec fn no_entries() -> Map<Seq<char>, Seq<char>> {
    Map::empty()
}

/// The configuration key naming the brokers a client first contacts.
pub open spec fn bootstrap_key() -> Seq<char> {
    seq!['b', 'o', 'o', 't', 's', 't', 'r', 'a', 'p', '.', 's', 'e', 'r', 'v', 'e', 'r', 's']
}

/// The addresses joined by commas, in order.
pub open spec fn joined(addrs: Seq<Seq<char>>) -> Seq<char>
    decreases addrs.len(),
{
    if addrs.len() == 0 {
        Seq::empty()
    } else if addrs.len() == 1 {
        addrs[0]
    } else {
        joined(addrs.drop_last()) + seq![','] + addrs.last()
    }
}

/// Relies on rdkafka's ClientConfig::new: a configuration with no entries.
#[verifier::external_body]
fn empty_config() -> (r: ClientConfig)
    ensures
        config_entries(r) == no_entries(),
{
    ClientConfig::new()
}

/// Relies on rdkafka's ClientConfig::set: inserts the entry, replacing any
/// earlier value of the key.
#[verifier::external_body]
fn set_entry(c: &mut ClientConfig, key: &str, value: &str)
    ensures
        config_entries(*final(c)) == config_entries(*old(c)).insert(key@, value@),
{
    c.set(key, value);
}

/// The value of the bootstrap-server setting: every address, in order,
/// separated by commas; `None` when no address is given.
pub fn bootstrap_servers(addrs: &Vec<String>) -> (r: Option<String>)
    ensures
        addrs@.len() == 0 <==> r is None,
        r matches Some(s) ==> s@ == joined(addrs.deep_view()),
{
    if addrs.len() == 0 {
        return None;
    }
    let mut s = addrs[0].clone();
    let mut i: usize = 1;
    assert(addrs.deep_view().subrange(0, 1) =~= seq![addrs[0]@]);
    while i < addrs.len()
        invariant
            1 <= i <= addrs@.len(),
            s@ == joined(addrs.deep_view().subrange(0, i as int)),
        decreases addrs@.len() - i,
    {
        let ghost prev = addrs.deep_view().subrange(0, i as int);
        s.append(",");
        s.append(addrs[i].as_str());
        proof {
            reveal_strlit(",");
            let next = addrs.deep_view().subrange(0, i + 1);
            assert(next.drop_last() =~= prev);
            assert(s@ =~= joined(next));
        }
        i = i + 1;
    }
    assert(addrs.deep_view().subrange(0, i as int) =~= addrs.deep_view());
    Some(s)
}

/// The connection configuration for the given bootstrap addresses: a single
/// entry that hands every address to the client; `None` when no address is
/// given.
pub fn client_config(addrs: &Vec<String>) -> (r: Option<ClientConfig>)
    ensures
        addrs@.len() == 0 <==> r is None,
        r matches Some(c) ==> config_entries(c) == map![bootstrap_key() => joined(addrs.deep_view())],
{
    match bootstrap_servers(addrs) {
        None => None,
        Some(servers) => {
            let mut c = empty_config();
            set_entry(&mut c, "bootstrap.servers", servers.as_str());
            proof {
                reveal_strlit("bootstrap.servers");
                assert("bootstrap.servers"@ =~= bootstrap_key());
                assert(config_entries(c) =~= map![bootstrap_key() => joined(addrs.deep_view())]);
            }
            Some(c)
        },
    }
}

} // verus!
