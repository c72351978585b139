use vstd::prelude::*;

verus! {

/// The service's production base URL; every request path is appended to it.
pub const BASE_URL: &'static str = "https://api.ipquery.io/";

/// The parts joined in order, with a single comma between two neighbours.
pub open spec fn comma_joined(parts: Seq<Seq<char>>) -> Seq<char>
    decreases parts.len(),
{
    if parts.len() == 0 {
        Seq::empty()
    } else if parts.len() == 1 {
        parts[0]
    } else {
        comma_joined(parts.drop_last()) + seq![','] + parts.last()
    }
}

/// The views of a list of borrowed strings.
pub open spec fn views_of(ips: Seq<&str>) -> Seq<Seq<char>> {
    ips.map_values(|s: &str| s@)
}

/// The target of a lookup of one address: the endpoint followed by the address.
pub open spec fn single_path(endpoint: Seq<char>, ip: Seq<char>) -> Seq<char> {
    endpoint + ip
}

/// The target of a lookup of several addresses: the endpoint followed by the
/// comma-separated addresses.
pub open spec fn bulk_path(endpoint: Seq<char>, ips: Seq<Seq<char>>) -> Seq<char> {
    endpoint + comma_joined(ips)
}

/// Joins the addresses with commas, keeping their order.
pub fn join_ips(ips: &[&str]) -> (r: String)
    ensures
        r@ == comma_joined(views_of(ips@)),
{
    let ghost parts = views_of(ips@);
    let mut out = String::new();
    let mut i: usize = 0;
    while i < ips.len()
        invariant
            i <= ips@.len(),
            parts == views_of(ips@),
            out@ == comma_joined(parts.take(i as int)),
        decreases ips@.len() - i,
    {
        proof {
            reveal_strlit(",");
            assert(parts.take(i as int + 1).drop_last() =~= parts.take(i as int));
            assert(parts.take(i as int + 1).last() == ips@[i as int]@);
        }
        if i > 0 {
            out.append(",");
        }
        out.append(ips[i]);
        i = i + 1;
    }
    proof {
        assert(parts.take(ips@.len() as int) =~= parts);
    }
    out
}

/// Builds the URL of a lookup of one address against `endpoint`.
pub fn single_url(endpoint: &str, ip: &str) -> (r: String)
    ensures
        r@ == single_path(endpoint@, ip@),
{
    let mut url = String::from_str(endpoint);
    url.append(ip);
    url
}

/// Builds the URL of a lookup of several addresses in one request against `endpoint`.
pub fn bulk_url(endpoint: &str, ips: &[&str]) -> (r: String)
    ensures
        r@ == bulk_path(endpoint@, views_of(ips@)),
{
    let joined = join_ips(ips);
    let mut url = String::from_str(endpoint);
    url.append(joined.as_str());
    url
}

/// Builds the URL of the lookup of the caller's own address: the endpoint alone.
pub fn own_ip_url(endpoint: &str) -> (r: String)
    ensures
        r@ == endpoint@,
{
    String::from_str(endpoint)
}

/// An empty list of addresses is no error: its request goes to the endpoint itself.
pub proof fn lemma_empty_bulk_targets_endpoint(endpoint: Seq<char>)
    ensures
        bulk_path(endpoint, Seq::empty()) == endpoint,
{
    assert(endpoint + Seq::<char>::empty() =~= endpoint);
}

} // verus!
