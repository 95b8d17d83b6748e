//! Which remote hosts may connect without the relay.

use crate::config::{loopback_hosts, Config, ConfigView};
use crate::text::{contains_text, texts};
use vstd::prelude::*;

verus! {

/// The hosts that a configuration trusts: those it names, or the loopback
/// hosts where it names none.
pub open spec fn effective_hosts(config: ConfigView) -> Seq<Seq<char>> {
    match config.trusted_remote_hosts {
        Some(hosts) => if hosts.len() > 0 {
            hosts
        } else {
            loopback_hosts()
        },
        None => loopback_hosts(),
    }
}

/// Whether `remote_host` may proceed: it is one of the trusted hosts, or
/// the device is discoverable just now, which lets any host in.
pub open spec fn trusts(config: ConfigView, discoverable: bool, remote_host: Seq<char>) -> bool {
    discoverable || effective_hosts(config).contains(remote_host)
}

/// Whether `remote_host` is one of the loopback hosts.
fn is_loopback(remote_host: &str) -> (found: bool)
    ensures
        found == loopback_hosts().contains(remote_host@),
{
    let host = remote_host.to_owned();
    let found = host == "127.0.0.1".to_owned() || host == "localhost".to_owned() || host
        == "::1".to_owned();
    proof {
        let hosts = loopback_hosts();
        if found {
            assert(hosts[0] == "127.0.0.1"@ && hosts[1] == "localhost"@ && hosts[2] == "::1"@);
        }
    }
    found
}

/// Decides whether `remote_host` may proceed without the relay.
pub fn is_trusted(remote_host: &str, config: &Config, discoverable: bool) -> (trusted: bool)
    ensures
        trusted == trusts(config@, discoverable, remote_host@),
{
    if discoverable {
        return true;
    }
    match &config.trusted_remote_hosts {
        Some(hosts) => {
            assert(texts(hosts@).len() == hosts@.len());
            if hosts.len() > 0 {
                contains_text(hosts, remote_host)
            } else {
                is_loopback(remote_host)
            }
        },
        None => is_loopback(remote_host),
    }
}

/// Where the configuration names no host and the device is not
/// discoverable, exactly the three loopback hosts are trusted.
pub proof fn lemma_loopback_by_default(config: ConfigView, remote_host: Seq<char>)
    requires
        match config.trusted_remote_hosts {
            Some(hosts) => hosts.len() == 0,
            None => true,
        },
    ensures
        trusts(config, false, remote_host) <==> (remote_host == "127.0.0.1"@ || remote_host
            == "localhost"@ || remote_host == "::1"@),
{
    let hosts = loopback_hosts();
    assert(hosts[0] == "127.0.0.1"@ && hosts[1] == "localhost"@ && hosts[2] == "::1"@);
}

/// While the device is discoverable every host is trusted; once it no
/// longer is, the list of hosts decides again.
pub proof fn lemma_discoverable_overrides(config: ConfigView, remote_host: Seq<char>)
    ensures
        trusts(config, true, remote_host),
        trusts(config, false, remote_host) == effective_hosts(config).contains(remote_host),
{
}

} // verus!
