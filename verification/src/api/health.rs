//! Health of the daemon: the one route without a token.

use vstd::prelude::*;

use crate::protocol::api::{HealthResponse, ProviderHealth, ProviderStatus, RelayStatus};

verus! {

/// Whether this is the health of the daemon.
pub open spec fn tells(
    has_key: bool,
    status: ProviderStatus,
    version: Seq<char>,
    relay_configured: bool,
    relay_connected: bool,
    r: HealthResponse,
) -> bool {
    &&& r.status@ == (if has_key {
        "ok"@
    } else {
        "down"@
    })
    &&& r.version@ == version
    &&& r.provider.id == status.id
    &&& has_key ==> r.provider == status
    &&& !has_key ==> r.provider.health == ProviderHealth::Down && (r.provider.reason matches Some(
        why,
    ) && why@ == "missing_api_key"@)
    &&& r.relay == Some(
        RelayStatus { configured: relay_configured, connected: relay_connected },
    )
}

/// The health of the daemon. Without a provider key it is down.
pub fn health(
    has_key: bool,
    status: ProviderStatus,
    version: &str,
    relay_configured: bool,
    relay_connected: bool,
) -> (r: HealthResponse)
    ensures
        tells(has_key, status, version@, relay_configured, relay_connected, r),
{
    let provider = if has_key {
        status
    } else {
        ProviderStatus {
            id: status.id,
            health: ProviderHealth::Down,
            reason: Some("missing_api_key".to_owned()),
        }
    };
    HealthResponse {
        status: if has_key {
            "ok".to_owned()
        } else {
            "down".to_owned()
        },
        version: version.to_owned(),
        provider,
        relay: Some(RelayStatus { configured: relay_configured, connected: relay_connected }),
    }
}

/// Law: the daemon is well exactly when it has a key; without one its provider
/// is down, for want of the key. What the relay is said to be is what it is.
pub proof fn law_health(
    has_key: bool,
    status: ProviderStatus,
    version: Seq<char>,
    relay_configured: bool,
    relay_connected: bool,
    r: HealthResponse,
)
    requires
        tells(has_key, status, version, relay_configured, relay_connected, r),
    ensures
        has_key ==> r.status@ == "ok"@ && r.provider.health == status.health && r.provider.reason
            == status.reason,
        !has_key ==> r.status@ == "down"@ && r.provider.health == ProviderHealth::Down && (
        r.provider.reason matches Some(why) && why@ == "missing_api_key"@),
        r.provider.id == status.id,
        r.version@ == version,
        r.relay matches Some(relay) && relay.configured == relay_configured && relay.connected
            == relay_connected,
{
}

} // verus!
