//! The fixed names, addresses and delays of the container. The VPN client and
//! the proxy expect exactly these values.

use vstd::prelude::*;

verus! {

/// The name under which the tool keeps its data.
pub const APPLICATION: &'static str = "bubblewarp";

/// The veth endpoint that stays on the host.
pub const HOST_LINK: &'static str = "veth-warp";

/// The veth endpoint that is moved into the network namespace.
pub const CONTAINER_LINK: &'static str = "veth-warp-ns";

/// The address of the host endpoint.
pub const HOST_ADDRESS: &'static str = "10.200.0.1/24";

/// The address of the container endpoint.
pub const CONTAINER_ADDRESS: &'static str = "10.200.0.2/24";

/// The gateway of the container: the host endpoint.
pub const GATEWAY: &'static str = "10.200.0.1";

/// The source of the masquerade rule as bring-up writes it.
pub const NAT_SOURCE_ADDED: &'static str = "10.200.0.2/24";

/// The source of the masquerade rule as tear-down names it.
pub const NAT_SOURCE_DELETED: &'static str = "10.200.0.0/24";

/// The firewall tool.
pub const FIREWALL: &'static str = "/usr/sbin/iptables";

/// The tool that enters namespaces.
pub const ENTER: &'static str = "nsenter";

/// The tool that creates namespaces.
pub const UNSHARE: &'static str = "unshare";

/// The init supervisor that anchors the pid namespace.
pub const INIT: &'static str = "tini";

/// The VPN client.
pub const VPN: &'static str = "warp-svc";

/// The SOCKS proxy, as it is started.
pub const PROXY: &'static str = "/usr/sbin/danted";

/// The SOCKS proxy, as it is looked for.
pub const PROXY_NAME: &'static str = "danted";

/// The process title of a worker of the SOCKS proxy.
pub const PROXY_WORKER: &'static str = "danted: io-chil";

/// The line by which the mount listing shows the overlay on `/etc`.
pub const OVERLAY_MARK: &'static str = "overlay on /etc type overlay";

/// The directory under the base directory that holds the overlay.
pub const OVERLAY_DIR: &'static str = "etc_overlay";

/// The resolver configuration of the container.
pub const RESOLV_CONF: &'static str =
    "# This is a hardcoded overlay of resolv.conf in the WARP container\nnameserver 127.0.2.2\nnameserver 127.0.2.3\nnameserver fd01:db8:1111::2\nnameserver fd01:db8:1111::3\n";

/// The proxy configuration of the container.
pub const PROXY_CONF: &'static str =
    "internal: 10.200.0.2 port = 8080\nexternal: CloudflareWARP\nsocksmethod: none\nclientmethod: none\nclient pass { from: 0.0.0.0/0 to: 0.0.0.0/0 }\nsocks pass { from: 0.0.0.0/0 to: 0.0.0.0/0 }\n";

/// The pause between two looks at the namespace helper, in milliseconds.
pub const POLL_INTERVAL_MS: u64 = 25;

/// The time after which the wait for the init process is given up, in
/// milliseconds.
pub const POLL_CEILING_MS: u64 = 1000;

/// The pause between the start of the VPN client and that of the proxy, in
/// milliseconds.
pub const SETTLE_MS: u64 = 1000;

} // verus!
