//! From a step to the operation that carries it out: the paths under the
//! base directory and the command lines, word for word.

use crate::command::{words, Cmd, CmdModel, Stream};
use crate::effect::{Layer, Request, RequestModel, Rule, Step};
use crate::fixed::{
    CONTAINER_ADDRESS, CONTAINER_LINK, FIREWALL, GATEWAY, HOST_ADDRESS, HOST_LINK, INIT,
    NAT_SOURCE_ADDED, NAT_SOURCE_DELETED, OVERLAY_DIR, PROXY, PROXY_CONF, RESOLV_CONF, UNSHARE,
    VPN,
};
use crate::namespace::{
    inside_all_namespaces, inside_namespace, mount_point, mount_point_of, run_inside_namespace,
    spawn_inside_all_namespaces, Type,
};
use crate::text::{join, joined};
use vstd::prelude::*;
use vstd::string::StringSliceAdditionalSpecFns;

verus! {

impl Layer {
    /// The name of the directory of the layer.
    pub open spec fn name(self) -> Seq<char> {
        match self {
            Layer::ExtraLower => "extra_lower"@,
            Layer::Upper => "upper"@,
            Layer::Work => "work"@,
        }
    }

    /// The name of the directory of the layer.
    pub fn as_str(&self) -> (r: &'static str)
        ensures
            r@ == self.name(),
    {
        match self {
            Layer::ExtraLower => "extra_lower",
            Layer::Upper => "upper",
            Layer::Work => "work",
        }
    }
}

/// The directory of a layer of the overlay.
pub open spec fn layer_dir_of(base_dir: Seq<char>, layer: Layer) -> Seq<char> {
    joined(joined(base_dir, OVERLAY_DIR@), layer.name())
}

/// The directory of a layer of the overlay.
pub fn layer_dir(base_dir: &str, layer: Layer) -> (r: String)
    ensures
        r@ == layer_dir_of(base_dir@, layer),
{
    let overlay = join(base_dir, OVERLAY_DIR);
    join(overlay.as_str(), layer.as_str())
}

/// The command that asks for the default route.
pub open spec fn route_query() -> CmdModel {
    CmdModel::with("ip"@, words(seq!["route", "show", "default"]))
}

/// The command that asks for the default route.
pub fn route_query_cmd() -> (r: Cmd)
    ensures
        r@ == route_query(),
{
    Cmd::with("ip", vec!["route", "show", "default"])
}

/// The command that creates the four namespaces, bound to their mount
/// points, maps the caller to root in them and runs the init supervisor as
/// their first process.
pub open spec fn helper_command(base_dir: Seq<char>) -> CmdModel {
    CmdModel::with(
        UNSHARE@,
        words(
            seq!["--fork", "-r", "--mount-proc", "--map-users=0,0,1200", "--map-groups=0,0,1200"],
        ),
    ).arg("--pid="@ + mount_point_of(base_dir, Type::Pid)).arg(
        "--user="@ + mount_point_of(base_dir, Type::User),
    ).arg("--net="@ + mount_point_of(base_dir, Type::Net)).arg(
        "--mount="@ + mount_point_of(base_dir, Type::Mount),
    ).args(words(seq!["--", INIT, "--", "sleep", "infinity"]))
}

fn flag(prefix: &str, base_dir: &str, ns_type: Type) -> (r: String)
    ensures
        r@ == prefix@ + mount_point_of(base_dir@, ns_type),
{
    let mut r = String::from_str(prefix);
    let path = mount_point(base_dir, ns_type);
    r.append(path.as_str());
    r
}

/// The command that creates the namespaces.
pub fn helper_cmd(base_dir: &str) -> (r: Cmd)
    ensures
        r@ == helper_command(base_dir@),
{
    let pid = flag("--pid=", base_dir, Type::Pid);
    let user = flag("--user=", base_dir, Type::User);
    let net = flag("--net=", base_dir, Type::Net);
    let mount = flag("--mount=", base_dir, Type::Mount);
    Cmd::with(
        UNSHARE,
        vec!["--fork", "-r", "--mount-proc", "--map-users=0,0,1200", "--map-groups=0,0,1200"],
    ).arg(pid.as_str()).arg(user.as_str()).arg(net.as_str()).arg(mount.as_str()).args(
        vec!["--", INIT, "--", "sleep", "infinity"],
    )
}

/// The option that tells the overlay its three directories.
pub open spec fn overlay_options(base_dir: Seq<char>) -> Seq<char> {
    "-olowerdir="@ + layer_dir_of(base_dir, Layer::ExtraLower) + ":/etc,upperdir="@
        + layer_dir_of(base_dir, Layer::Upper) + ",workdir="@ + layer_dir_of(
        base_dir,
        Layer::Work,
    )
}

/// The command that mounts the overlay on `/etc`.
pub open spec fn overlay_command(base_dir: Seq<char>) -> CmdModel {
    CmdModel::with("mount"@, words(seq!["-t", "overlay", "overlay"])).arg(
        overlay_options(base_dir),
    ).arg("/etc"@)
}

/// The command that mounts the overlay on `/etc`.
pub fn overlay_cmd(base_dir: &str) -> (r: Cmd)
    ensures
        r@ == overlay_command(base_dir@),
{
    let lower = layer_dir(base_dir, Layer::ExtraLower);
    let upper = layer_dir(base_dir, Layer::Upper);
    let work = layer_dir(base_dir, Layer::Work);
    let mut options = String::from_str("-olowerdir=");
    options.append(lower.as_str());
    options.append(":/etc,upperdir=");
    options.append(upper.as_str());
    options.append(",workdir=");
    options.append(work.as_str());
    Cmd::with("mount", vec!["-t", "overlay", "overlay"]).arg(options.as_str()).arg("/etc")
}

/// The command that creates the veth pair with one end in the network
/// namespace.
pub open spec fn link_pair_command(base_dir: Seq<char>) -> CmdModel {
    CmdModel::with(
        "ip"@,
        words(seq!["link", "add", HOST_LINK, "type", "veth", "peer", "name", CONTAINER_LINK, "netns"]),
    ).arg(mount_point_of(base_dir, Type::Net))
}

/// The command that creates the veth pair.
pub fn link_pair_cmd(base_dir: &str) -> (r: Cmd)
    ensures
        r@ == link_pair_command(base_dir@),
{
    let net = mount_point(base_dir, Type::Net);
    Cmd::with(
        "ip",
        vec!["link", "add", HOST_LINK, "type", "veth", "peer", "name", CONTAINER_LINK, "netns"],
    ).arg(net.as_str())
}

/// The command that appends a firewall rule for the interface `iface`.
pub open spec fn add_rule_command(rule: Rule, iface: Seq<char>) -> CmdModel {
    match rule {
        Rule::Masquerade => CmdModel::with(
            FIREWALL@,
            words(seq!["-t", "nat", "-A", "POSTROUTING", "-s", NAT_SOURCE_ADDED, "-o"]),
        ).arg(iface).args(words(seq!["-j", "MASQUERADE"])),
        Rule::ForwardIn => CmdModel::with(FIREWALL@, words(seq!["-A", "FORWARD", "-i"])).arg(
            iface,
        ).args(words(seq!["-o", HOST_LINK, "-j", "ACCEPT"])),
        Rule::ForwardOut => CmdModel::with(FIREWALL@, words(seq!["-A", "FORWARD", "-o"])).arg(
            iface,
        ).args(words(seq!["-i", HOST_LINK, "-j", "ACCEPT"])),
    }
}

/// The command that appends a firewall rule.
pub fn add_rule_cmd(rule: Rule, iface: &str) -> (r: Cmd)
    ensures
        r@ == add_rule_command(rule, iface@),
{
    match rule {
        Rule::Masquerade => Cmd::with(
            FIREWALL,
            vec!["-t", "nat", "-A", "POSTROUTING", "-s", NAT_SOURCE_ADDED, "-o"],
        ).arg(iface).args(vec!["-j", "MASQUERADE"]),
        Rule::ForwardIn => Cmd::with(FIREWALL, vec!["-A", "FORWARD", "-i"]).arg(iface).args(
            vec!["-o", HOST_LINK, "-j", "ACCEPT"],
        ),
        Rule::ForwardOut => Cmd::with(FIREWALL, vec!["-A", "FORWARD", "-o"]).arg(iface).args(
            vec!["-i", HOST_LINK, "-j", "ACCEPT"],
        ),
    }
}

/// The command that deletes one instance of a firewall rule for the
/// interface `iface`.
pub open spec fn delete_rule_command(rule: Rule, iface: Seq<char>) -> CmdModel {
    match rule {
        Rule::Masquerade => CmdModel::with(
            FIREWALL@,
            words(seq!["-D", "POSTROUTING", "-t", "nat", "-s", NAT_SOURCE_DELETED, "-o"]),
        ).arg(iface).args(words(seq!["-j", "MASQUERADE"])),
        Rule::ForwardIn => CmdModel::with(FIREWALL@, words(seq!["-D", "FORWARD", "-i"])).arg(
            iface,
        ).args(words(seq!["-o", HOST_LINK, "-j", "ACCEPT"])),
        Rule::ForwardOut => CmdModel::with(FIREWALL@, words(seq!["-D", "FORWARD", "-o"])).arg(
            iface,
        ).args(words(seq!["-i", HOST_LINK, "-j", "ACCEPT"])),
    }
}

/// The command that deletes one instance of a firewall rule.
pub fn delete_iptables_rule(rule: Rule, iface: &str) -> (r: Cmd)
    ensures
        r@ == delete_rule_command(rule, iface@),
{
    match rule {
        Rule::Masquerade => Cmd::with(
            FIREWALL,
            vec!["-D", "POSTROUTING", "-t", "nat", "-s", NAT_SOURCE_DELETED, "-o"],
        ).arg(iface).args(vec!["-j", "MASQUERADE"]),
        Rule::ForwardIn => Cmd::with(FIREWALL, vec!["-D", "FORWARD", "-i"]).arg(iface).args(
            vec!["-o", HOST_LINK, "-j", "ACCEPT"],
        ),
        Rule::ForwardOut => Cmd::with(FIREWALL, vec!["-D", "FORWARD", "-o"]).arg(iface).args(
            vec!["-i", HOST_LINK, "-j", "ACCEPT"],
        ),
    }
}

/// The operation that unmounts the namespace of one kind: what is mounted at
/// its mount point is unmounted.
pub fn unmount_one_namespace(base_dir: &str, ns_type: Type) -> (r: Request)
    ensures
        r@ == (RequestModel::Unmount { path: mount_point_of(base_dir@, ns_type) }),
{
    Request::Unmount { path: mount_point(base_dir, ns_type) }
}

/// A command run to its end with both streams captured.
pub open spec fn captured(cmd: CmdModel) -> RequestModel {
    RequestModel::Run { cmd, stdout: Stream::Capture, stderr: Stream::Capture }
}

/// A command run to its end on the streams of the caller.
pub open spec fn shown(cmd: CmdModel) -> RequestModel {
    RequestModel::Run { cmd, stdout: Stream::Inherit, stderr: Stream::Inherit }
}

/// A command left running in the background, its output discarded.
pub open spec fn detached(cmd: CmdModel) -> RequestModel {
    RequestModel::Spawn { cmd, stdout: Stream::Discard, stderr: Stream::Discard }
}

/// The operation that carries out `step` for the base directory `base_dir`
/// and, where the step is a firewall rule, the interface `iface`.
pub open spec fn lowered(base_dir: Seq<char>, iface: Seq<char>, step: Step) -> RequestModel {
    match step {
        Step::ReadMounts => RequestModel::ReadMounts {
            base_dir,
            user_file: mount_point_of(base_dir, Type::User),
            pid_file: mount_point_of(base_dir, Type::Pid),
            mount_file: mount_point_of(base_dir, Type::Mount),
            net_file: mount_point_of(base_dir, Type::Net),
        },
        Step::ReadProcesses => RequestModel::ReadProcesses {
            pid_ns_file: mount_point_of(base_dir, Type::Pid),
        },
        Step::ListInterfaces => RequestModel::ListInterfaces,
        Step::InspectHelper(pid) => RequestModel::Inspect { pid },
        Step::CheckAlive(pid) => RequestModel::Alive { pid },
        Step::CollectHelper(pid) => RequestModel::Collect { pid },
        Step::ListMountsInside(pid) => captured(
            inside_all_namespaces(CmdModel::new("mount"@), pid),
        ),
        Step::QueryContainerRoute => captured(
            inside_namespace(base_dir, Type::Net, route_query()),
        ),
        Step::QueryHostRoute => captured(route_query()),
        Step::CreateBaseDir => RequestModel::CreateDirAll { path: base_dir },
        Step::BindBase => RequestModel::BindMount { path: base_dir },
        Step::MakeBasePrivate => RequestModel::MakePrivate { path: base_dir },
        Step::UnmountBase => RequestModel::Unmount { path: base_dir },
        Step::CreateMountPoint(k) => RequestModel::CreateFile {
            path: mount_point_of(base_dir, k),
        },
        Step::UnmountNamespace(k) => RequestModel::Unmount { path: mount_point_of(base_dir, k) },
        Step::CreateLayer(layer) => RequestModel::CreateDirAll {
            path: layer_dir_of(base_dir, layer),
        },
        Step::WriteResolvConf => RequestModel::WriteFile {
            path: joined(layer_dir_of(base_dir, Layer::ExtraLower), "resolv.conf"@),
            data: RESOLV_CONF.spec_bytes(),
        },
        Step::WriteProxyConf => RequestModel::WriteFile {
            path: joined(layer_dir_of(base_dir, Layer::ExtraLower), "danted.conf"@),
            data: PROXY_CONF.spec_bytes(),
        },
        Step::StartHelper => RequestModel::Spawn {
            cmd: helper_command(base_dir),
            stdout: Stream::Inherit,
            stderr: Stream::Inherit,
        },
        Step::MountOverlay(pid) => RequestModel::Run {
            cmd: inside_all_namespaces(overlay_command(base_dir), pid),
            stdout: Stream::Discard,
            stderr: Stream::Discard,
        },
        Step::CreateLinkPair => shown(link_pair_command(base_dir)),
        Step::AssignHostAddress => shown(
            CmdModel::with("ip"@, words(seq!["addr", "add", HOST_ADDRESS, "dev", HOST_LINK])),
        ),
        Step::RaiseHostLink => shown(
            CmdModel::with("ip"@, words(seq!["link", "set", HOST_LINK, "up"])),
        ),
        Step::AssignContainerAddress => captured(
            inside_namespace(
                base_dir,
                Type::Net,
                CmdModel::with(
                    "ip"@,
                    words(seq!["addr", "add", CONTAINER_ADDRESS, "dev", CONTAINER_LINK]),
                ),
            ),
        ),
        Step::RaiseContainerLink => captured(
            inside_namespace(
                base_dir,
                Type::Net,
                CmdModel::with("ip"@, words(seq!["link", "set", CONTAINER_LINK, "up"])),
            ),
        ),
        Step::AddRule(rule) => shown(add_rule_command(rule, iface)),
        Step::AddDefaultRoute => captured(
            inside_namespace(
                base_dir,
                Type::Net,
                CmdModel::with(
                    "ip"@,
                    words(seq!["route", "add", "default", "via", GATEWAY, "dev", CONTAINER_LINK]),
                ),
            ),
        ),
        Step::StartVpn(pid) => detached(inside_all_namespaces(CmdModel::new(VPN@), pid)),
        Step::StartProxy(pid) => detached(inside_all_namespaces(CmdModel::new(PROXY@), pid)),
        Step::Terminate(pid) => RequestModel::Terminate { pid },
        Step::UnmountProcInside => captured(
            inside_namespace(
                base_dir,
                Type::Mount,
                CmdModel::with("umount"@, words(seq!["/proc"])),
            ),
        ),
        Step::UnmountEtcInside => captured(
            inside_namespace(base_dir, Type::Mount, CmdModel::with("umount"@, words(seq!["/etc"]))),
        ),
        Step::DeleteContainerLink => captured(
            inside_namespace(
                base_dir,
                Type::Mount,
                CmdModel::with("ip"@, words(seq!["link", "delete", "dev", CONTAINER_LINK])),
            ),
        ),
        Step::DeleteRule(rule) => RequestModel::Run {
            cmd: delete_rule_command(rule, iface),
            stdout: Stream::Inherit,
            stderr: Stream::Discard,
        },
        Step::DeleteHostLink => captured(
            CmdModel::with("ip"@, words(seq!["link", "delete", "dev", HOST_LINK])),
        ),
        Step::Sleep(millis) => RequestModel::Sleep { millis },
    }
}

/// A step is lowered to a command that is run to its end, or to the
/// collecting of one, exactly when it is a command step; and to a command
/// that is started exactly when it starts the helper or a service.
pub proof fn law_commands_are_run(base_dir: Seq<char>, iface: Seq<char>, step: Step)
    ensures
        step.is_command() <==> lowered(base_dir, iface, step) is Run || lowered(
            base_dir,
            iface,
            step,
        ) is Collect,
        step is StartHelper || step is StartVpn || step is StartProxy <==> lowered(
            base_dir,
            iface,
            step,
        ) is Spawn,
{
}

fn capture(cmd: Cmd) -> (r: Request)
    ensures
        r@ == captured(cmd@),
{
    Request::Run { cmd, stdout: Stream::Capture, stderr: Stream::Capture }
}

fn show(cmd: Cmd) -> (r: Request)
    ensures
        r@ == shown(cmd@),
{
    Request::Run { cmd, stdout: Stream::Inherit, stderr: Stream::Inherit }
}

fn detach(cmd: Cmd) -> (r: Request)
    ensures
        r@ == detached(cmd@),
{
    Request::Spawn { cmd, stdout: Stream::Discard, stderr: Stream::Discard }
}

fn lower_query(base_dir: &str, step: Step) -> (r: Request)
    requires
        step is ReadMounts || step is ReadProcesses || step is ListInterfaces
            || step is InspectHelper || step is CheckAlive || step is CollectHelper
            || step is ListMountsInside || step is QueryContainerRoute || step is QueryHostRoute,
    ensures
        forall|iface: Seq<char>| r@ == lowered(base_dir@, iface, step),
{
    match step {
        Step::ReadMounts => Request::ReadMounts {
            base_dir: String::from_str(base_dir),
            user_file: mount_point(base_dir, Type::User),
            pid_file: mount_point(base_dir, Type::Pid),
            mount_file: mount_point(base_dir, Type::Mount),
            net_file: mount_point(base_dir, Type::Net),
        },
        Step::ReadProcesses => Request::ReadProcesses {
            pid_ns_file: mount_point(base_dir, Type::Pid),
        },
        Step::ListInterfaces => Request::ListInterfaces,
        Step::InspectHelper(pid) => Request::Inspect { pid },
        Step::CheckAlive(pid) => Request::Alive { pid },
        Step::CollectHelper(pid) => Request::Collect { pid },
        Step::ListMountsInside(pid) => capture(
            spawn_inside_all_namespaces(&Cmd::new("mount"), pid),
        ),
        Step::QueryContainerRoute => capture(
            run_inside_namespace(base_dir, Type::Net, &route_query_cmd()),
        ),
        _ => capture(route_query_cmd()),
    }
}

fn lower_file(base_dir: &str, step: Step) -> (r: Request)
    requires
        step is CreateBaseDir || step is BindBase || step is MakeBasePrivate
            || step is UnmountBase || step is CreateMountPoint || step is UnmountNamespace
            || step is CreateLayer || step is WriteResolvConf || step is WriteProxyConf
            || step is Terminate || step is Sleep,
    ensures
        forall|iface: Seq<char>| r@ == lowered(base_dir@, iface, step),
{
    match step {
        Step::CreateBaseDir => Request::CreateDirAll { path: String::from_str(base_dir) },
        Step::BindBase => Request::BindMount { path: String::from_str(base_dir) },
        Step::MakeBasePrivate => Request::MakePrivate { path: String::from_str(base_dir) },
        Step::UnmountBase => Request::Unmount { path: String::from_str(base_dir) },
        Step::CreateMountPoint(k) => Request::CreateFile { path: mount_point(base_dir, k) },
        Step::UnmountNamespace(k) => unmount_one_namespace(base_dir, k),
        Step::CreateLayer(layer) => Request::CreateDirAll { path: layer_dir(base_dir, layer) },
        Step::WriteResolvConf => {
            let dir = layer_dir(base_dir, Layer::ExtraLower);
            Request::WriteFile {
                path: join(dir.as_str(), "resolv.conf"),
                data: RESOLV_CONF.as_bytes_vec(),
            }
        },
        Step::WriteProxyConf => {
            let dir = layer_dir(base_dir, Layer::ExtraLower);
            Request::WriteFile {
                path: join(dir.as_str(), "danted.conf"),
                data: PROXY_CONF.as_bytes_vec(),
            }
        },
        Step::Terminate(pid) => Request::Terminate { pid },
        Step::Sleep(millis) => Request::Sleep { millis },
        _ => Request::ListInterfaces,
    }
}

fn lower_command(base_dir: &str, iface: &str, step: Step) -> (r: Request)
    requires
        !(step is ReadMounts || step is ReadProcesses || step is ListInterfaces
            || step is InspectHelper || step is CheckAlive || step is CollectHelper
            || step is ListMountsInside || step is QueryContainerRoute || step is QueryHostRoute),
        !(step is CreateBaseDir || step is BindBase || step is MakeBasePrivate
            || step is UnmountBase || step is CreateMountPoint || step is UnmountNamespace
            || step is CreateLayer || step is WriteResolvConf || step is WriteProxyConf
            || step is Terminate || step is Sleep),
    ensures
        r@ == lowered(base_dir@, iface@, step),
{
    match step {
        Step::StartHelper => Request::Spawn {
            cmd: helper_cmd(base_dir),
            stdout: Stream::Inherit,
            stderr: Stream::Inherit,
        },
        Step::MountOverlay(pid) => Request::Run {
            cmd: spawn_inside_all_namespaces(&overlay_cmd(base_dir), pid),
            stdout: Stream::Discard,
            stderr: Stream::Discard,
        },
        Step::CreateLinkPair => show(link_pair_cmd(base_dir)),
        Step::AssignHostAddress => show(
            Cmd::with("ip", vec!["addr", "add", HOST_ADDRESS, "dev", HOST_LINK]),
        ),
        Step::RaiseHostLink => show(Cmd::with("ip", vec!["link", "set", HOST_LINK, "up"])),
        Step::AssignContainerAddress => capture(
            run_inside_namespace(
                base_dir,
                Type::Net,
                &Cmd::with("ip", vec!["addr", "add", CONTAINER_ADDRESS, "dev", CONTAINER_LINK]),
            ),
        ),
        Step::RaiseContainerLink => capture(
            run_inside_namespace(
                base_dir,
                Type::Net,
                &Cmd::with("ip", vec!["link", "set", CONTAINER_LINK, "up"]),
            ),
        ),
        Step::AddRule(rule) => show(add_rule_cmd(rule, iface)),
        Step::AddDefaultRoute => capture(
            run_inside_namespace(
                base_dir,
                Type::Net,
                &Cmd::with(
                    "ip",
                    vec!["route", "add", "default", "via", GATEWAY, "dev", CONTAINER_LINK],
                ),
            ),
        ),
        Step::StartVpn(pid) => detach(spawn_inside_all_namespaces(&Cmd::new(VPN), pid)),
        Step::StartProxy(pid) => detach(spawn_inside_all_namespaces(&Cmd::new(PROXY), pid)),
        Step::UnmountProcInside => capture(
            run_inside_namespace(base_dir, Type::Mount, &Cmd::with("umount", vec!["/proc"])),
        ),
        Step::UnmountEtcInside => capture(
            run_inside_namespace(base_dir, Type::Mount, &Cmd::with("umount", vec!["/etc"])),
        ),
        Step::DeleteContainerLink => capture(
            run_inside_namespace(
                base_dir,
                Type::Mount,
                &Cmd::with("ip", vec!["link", "delete", "dev", CONTAINER_LINK]),
            ),
        ),
        Step::DeleteRule(rule) => Request::Run {
            cmd: delete_iptables_rule(rule, iface),
            stdout: Stream::Inherit,
            stderr: Stream::Discard,
        },
        _ => capture(Cmd::with("ip", vec!["link", "delete", "dev", HOST_LINK])),
    }
}

/// Spells out the operation that carries out `step`: which paths under
/// `base_dir` it touches, or which command line it runs and where its output
/// goes. `iface` is the default interface of the host; only the firewall
/// rules use it.
pub fn lower(base_dir: &str, iface: &str, step: Step) -> (r: Request)
    ensures
        r@ == lowered(base_dir@, iface@, step),
{
    match step {
        Step::ReadMounts
        | Step::ReadProcesses
        | Step::ListInterfaces
        | Step::InspectHelper(_)
        | Step::CheckAlive(_)
        | Step::CollectHelper(_)
        | Step::ListMountsInside(_)
        | Step::QueryContainerRoute
        | Step::QueryHostRoute => lower_query(base_dir, step),
        Step::CreateBaseDir
        | Step::BindBase
        | Step::MakeBasePrivate
        | Step::UnmountBase
        | Step::CreateMountPoint(_)
        | Step::UnmountNamespace(_)
        | Step::CreateLayer(_)
        | Step::WriteResolvConf
        | Step::WriteProxyConf
        | Step::Terminate(_)
        | Step::Sleep(_) => lower_file(base_dir, step),
        _ => lower_command(base_dir, iface, step),
    }
}

} // verus!
