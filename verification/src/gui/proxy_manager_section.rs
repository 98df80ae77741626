//! The form for a proxy that is kept by name, and the list of saved ones.

use vstd::prelude::*;
use vstd::string::StringExecFns;
use crate::proxy_manager::{proxy_url, proxy_url_text, ProxyConfig};

verus! {

/// The URL under which a proxy is tested: with its credentials where it
/// has a username, without them where it has none.
pub open spec fn test_url_text(proxy: ProxyConfig) -> Seq<char> {
    if proxy.proxy_username@.len() == 0 {
        proxy.proxy_type@ + "://"@ + proxy.proxy_host@ + ":"@ + proxy.proxy_port@
    } else {
        proxy_url_text(
            proxy.proxy_type@,
            proxy.proxy_username@,
            proxy.proxy_password@,
            proxy.proxy_host@,
            proxy.proxy_port@,
        )
    }
}

/// The list without the records at the given positions.
pub open spec fn without(proxies: Seq<ProxyConfig>, positions: Seq<usize>) -> Seq<ProxyConfig>
    decreases positions.len(),
{
    if positions.len() == 0 {
        proxies
    } else {
        without(proxies.remove(positions.last() as int), positions.drop_last())
    }
}

/// The positions rise and lie within a list of `len` records.
pub open spec fn rising_within(positions: Seq<usize>, len: int) -> bool {
    &&& forall|i: int, j: int| 0 <= i < j < positions.len() ==> positions[i] < positions[j]
    &&& forall|i: int| 0 <= i < positions.len() ==> positions[i] < len
}

/// The URL under which the proxy of the form is tested.
pub fn test_url(proxy: &ProxyConfig) -> (r: String)
    ensures
        r@ == test_url_text(*proxy),
{
    if proxy.proxy_username.as_str().is_empty() {
        let mut url = String::new();
        url.append(proxy.proxy_type.as_str());
        url.append("://");
        url.append(proxy.proxy_host.as_str());
        url.append(":");
        url.append(proxy.proxy_port.as_str());
        assert(url@ =~= test_url_text(*proxy));
        url
    } else {
        proxy_url(
            proxy.proxy_type.as_str(),
            proxy.proxy_username.as_str(),
            proxy.proxy_password.as_str(),
            proxy.proxy_host.as_str(),
            proxy.proxy_port.as_str(),
        )
    }
}

/// The record that is saved for the proxy of the form: what was typed, and
/// no result of a check.
pub fn saved_proxy(form: &ProxyConfig) -> (r: ProxyConfig)
    ensures
        r.same_proxy(form),
        r.country@.len() == 0,
        r.lang_arg@.len() == 0,
        r.accept_language_arg@.len() == 0,
        r.last_ip@.len() == 0,
        r.used_ips@.len() == 0,
{
    ProxyConfig {
        proxy_name: form.proxy_name.clone(),
        proxy_type: form.proxy_type.clone(),
        proxy_host: form.proxy_host.clone(),
        proxy_port: form.proxy_port.clone(),
        proxy_username: form.proxy_username.clone(),
        proxy_password: form.proxy_password.clone(),
        country: String::new(),
        lang_arg: String::new(),
        accept_language_arg: String::new(),
        last_ip: String::new(),
        used_ips: Vec::new(),
    }
}

/// Whether positions rise and lie within a list of `len` records.
pub fn is_rising_within(positions: &Vec<usize>, len: usize) -> (r: bool)
    ensures
        r == rising_within(positions@, len as int),
{
    let mut i: usize = 0;
    while i < positions.len()
        invariant
            i <= positions.len(),
            forall|a: int, b: int| 0 <= a < b < i ==> positions@[a] < positions@[b],
            forall|a: int| 0 <= a < i ==> positions@[a] < len,
        decreases positions.len() - i,
    {
        if positions[i] >= len {
            return false;
        }
        if i > 0 && positions[i - 1] >= positions[i] {
            return false;
        }
        assert forall|a: int, b: int| 0 <= a < b < i + 1 implies positions@[a] < positions@[b] by {
            if b == i && a < i - 1 {
                assert(positions@[a] < positions@[i - 1]);
            }
        }
        i += 1;
    }
    true
}

/// Deletes the records at the given positions, which rise and lie within
/// the list.
pub fn delete_saved(proxies: &mut Vec<ProxyConfig>, positions: &Vec<usize>)
    requires
        rising_within(positions@, old(proxies)@.len() as int),
    ensures
        final(proxies)@ == without(old(proxies)@, positions@),
        final(proxies)@.len() == old(proxies)@.len() - positions@.len(),
{
    let mut k: usize = positions.len();
    assert(positions@.take(k as int) =~= positions@);
    while k > 0
        invariant
            k <= positions.len(),
            rising_within(positions@, old(proxies)@.len() as int),
            proxies@.len() == old(proxies)@.len() - (positions@.len() - k),
            without(proxies@, positions@.take(k as int)) == without(old(proxies)@, positions@),
            forall|i: int| 0 <= i < k ==> positions@[i] < proxies@.len(),
        decreases k,
    {
        k -= 1;
        proof {
            assert(positions@.take(k + 1).drop_last() =~= positions@.take(k as int));
            assert(positions@.take(k + 1).last() == positions@[k as int]);
        }
        proxies.remove(positions[k]);
        proof {
            assert forall|i: int| 0 <= i < k implies positions@[i] < proxies@.len() by {
                assert(positions@[i] < positions@[k as int]);
            }
        }
    }
    assert(positions@.take(0) =~= Seq::<usize>::empty());
}

/// The list of operating-system fingerprints at a position of the
/// catalogue, if the catalogue has one there.
pub fn fingerprint_list(catalogue: &Vec<Vec<String>>, position: usize) -> (r: Option<
    Vec<String>,
>)
    ensures
        match r {
            Some(list) => position < catalogue@.len() && list@ == catalogue@[position as int]@,
            None => position >= catalogue@.len(),
        },
{
    if position < catalogue.len() {
        let list = catalogue[position].clone();
        assert(list@ =~= catalogue@[position as int]@);
        Some(list)
    } else {
        None
    }
}

} // verus!
