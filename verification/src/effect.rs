//! What a workflow asks of its caller, and what the caller answers.
//!
//! A workflow never touches the host. It hands out one `Step` at a time; the
//! caller turns the step into a `Request` (see `lower`), performs it, and
//! hands back the `Event` that tells how it went.

use crate::command::{Cmd, CmdModel, Output, OutputModel, Stream};
use crate::error::{Error, ErrorModel};
use crate::namespace::{Mounts, MountsModel, Process, ProcessModel, Type};
use vstd::prelude::*;

verus! {

/// One of the three firewall rules that connect the container to the
/// outside.
#[derive(Debug, Clone, Copy, PartialEq, Eq, Structural)]
pub enum Rule {
    /// Masquerade what leaves the container subnet through the host's
    /// default interface.
    Masquerade,
    /// Accept what is forwarded from the default interface to the host link.
    ForwardIn,
    /// Accept what is forwarded from the host link to the default interface.
    ForwardOut,
}

/// One of the three directories of the overlay on `/etc`.
#[derive(Debug, Clone, Copy, PartialEq, Eq, Structural)]
pub enum Layer {
    /// The files laid over the host's `/etc`.
    ExtraLower,
    /// The layer that takes the writes.
    Upper,
    /// The work area of the overlay.
    Work,
}

/// One thing to do on the host, named by its purpose.
#[derive(Debug, Clone, Copy, PartialEq, Eq, Structural)]
pub enum Step {
    /// Probe the base directory and the four mount points and read the
    /// mount table. Answered by `Event::Mounts`.
    ReadMounts,
    /// Read the process table. Answered by `Event::Processes`.
    ReadProcesses,
    /// List the network interfaces of the host. Answered by
    /// `Event::Interfaces`.
    ListInterfaces,
    /// Look at the namespace helper. Answered by `Event::Helper`.
    InspectHelper(u32),
    /// Ask whether a process lives. Answered by `Event::Alive`.
    CheckAlive(u32),
    /// Wait for the dead namespace helper and take what it left. Answered by
    /// `Event::Output`.
    CollectHelper(u32),
    /// List the mounts as the namespaces of a process see them. Answered by
    /// `Event::Output`.
    ListMountsInside(u32),
    /// Ask for the default route inside the network namespace. Answered by
    /// `Event::Output`.
    QueryContainerRoute,
    /// Ask for the default route of the host. Answered by `Event::Output`.
    QueryHostRoute,
    /// Create the base directory and its parents unless it exists.
    CreateBaseDir,
    /// Bind-mount the base directory onto itself.
    BindBase,
    /// Mark the mount of the base directory private.
    MakeBasePrivate,
    /// Unmount the base directory.
    UnmountBase,
    /// Create the empty file that is the mount point of a kind, unless it
    /// exists.
    CreateMountPoint(Type),
    /// Unmount the namespace file of a kind.
    UnmountNamespace(Type),
    /// Create one directory of the overlay, and its parents.
    CreateLayer(Layer),
    /// Write the resolver configuration into the overlay.
    WriteResolvConf,
    /// Write the proxy configuration into the overlay.
    WriteProxyConf,
    /// Start the helper that creates the four namespaces and runs the init
    /// process in them. Answered by `Event::Spawned`.
    StartHelper,
    /// Mount the overlay on `/etc` from inside the namespaces of a process.
    MountOverlay(u32),
    /// Create the veth pair, one end in the network namespace.
    CreateLinkPair,
    /// Give the host end its address.
    AssignHostAddress,
    /// Bring the host end up.
    RaiseHostLink,
    /// Give the container end its address.
    AssignContainerAddress,
    /// Bring the container end up.
    RaiseContainerLink,
    /// Append a firewall rule.
    AddRule(Rule),
    /// Route the container through the host end by default.
    AddDefaultRoute,
    /// Start the VPN client inside the namespaces of a process. Answered by
    /// `Event::Spawned`.
    StartVpn(u32),
    /// Start the proxy inside the namespaces of a process. Answered by
    /// `Event::Spawned`.
    StartProxy(u32),
    /// Ask a process to end.
    Terminate(u32),
    /// Unmount `/proc` inside the mount namespace.
    UnmountProcInside,
    /// Unmount `/etc` inside the mount namespace.
    UnmountEtcInside,
    /// Delete the container end of the veth pair.
    DeleteContainerLink,
    /// Delete one instance of a firewall rule.
    DeleteRule(Rule),
    /// Delete the host end of the veth pair.
    DeleteHostLink,
    /// Pause for so many milliseconds.
    Sleep(u64),
}

impl Step {
    /// Whether the step runs a command to its end, so that `Event::Output`
    /// answers it.
    pub open spec fn is_command(self) -> bool {
        match self {
            Step::CollectHelper(_)
            | Step::ListMountsInside(_)
            | Step::QueryContainerRoute
            | Step::QueryHostRoute
            | Step::MountOverlay(_)
            | Step::CreateLinkPair
            | Step::AssignHostAddress
            | Step::RaiseHostLink
            | Step::AssignContainerAddress
            | Step::RaiseContainerLink
            | Step::AddRule(_)
            | Step::AddDefaultRoute
            | Step::UnmountProcInside
            | Step::UnmountEtcInside
            | Step::DeleteContainerLink
            | Step::DeleteRule(_)
            | Step::DeleteHostLink => true,
            _ => false,
        }
    }

    /// The program that a command step is about, as failures name it.
    pub open spec fn program(self) -> Seq<char> {
        match self {
            Step::CollectHelper(_) | Step::StartHelper => "unshare"@,
            Step::ListMountsInside(_) | Step::MountOverlay(_) => "mount"@,
            Step::UnmountProcInside | Step::UnmountEtcInside => "umount"@,
            Step::AddRule(_) | Step::DeleteRule(_) => "/usr/sbin/iptables"@,
            Step::StartVpn(_) => "warp-svc"@,
            Step::StartProxy(_) => "/usr/sbin/danted"@,
            _ => "ip"@,
        }
    }

    /// Whether the step runs a command to its end.
    pub fn runs_command(&self) -> (r: bool)
        ensures
            r == self.is_command(),
    {
        match self {
            Step::CollectHelper(_)
            | Step::ListMountsInside(_)
            | Step::QueryContainerRoute
            | Step::QueryHostRoute
            | Step::MountOverlay(_)
            | Step::CreateLinkPair
            | Step::AssignHostAddress
            | Step::RaiseHostLink
            | Step::AssignContainerAddress
            | Step::RaiseContainerLink
            | Step::AddRule(_)
            | Step::AddDefaultRoute
            | Step::UnmountProcInside
            | Step::UnmountEtcInside
            | Step::DeleteContainerLink
            | Step::DeleteRule(_)
            | Step::DeleteHostLink => true,
            _ => false,
        }
    }

    /// The program that a command step is about.
    pub fn program_name(&self) -> (r: &'static str)
        ensures
            r@ == self.program(),
    {
        match self {
            Step::CollectHelper(_) | Step::StartHelper => "unshare",
            Step::ListMountsInside(_) | Step::MountOverlay(_) => "mount",
            Step::UnmountProcInside | Step::UnmountEtcInside => "umount",
            Step::AddRule(_) | Step::DeleteRule(_) => "/usr/sbin/iptables",
            Step::StartVpn(_) => "warp-svc",
            Step::StartProxy(_) => "/usr/sbin/danted",
            _ => "ip",
        }
    }
}

/// What a workflow wants next: a step done, or nothing more.
#[derive(Debug)]
pub enum Next {
    /// Perform the step and hand back the event that answers it.
    Do(Step),
    /// The workflow is over, with this result.
    Done(Result<(), Error>),
}

/// The mathematical content of a `Next`.
#[verifier::ext_equal]
pub enum NextModel {
    Do(Step),
    Done(Result<(), ErrorModel>),
}

impl View for Next {
    type V = NextModel;

    open spec fn view(&self) -> NextModel {
        match self {
            Next::Do(step) => NextModel::Do(*step),
            Next::Done(Ok(())) => NextModel::Done(Ok(())),
            Next::Done(Err(e)) => NextModel::Done(Err(e@)),
        }
    }
}

/// What a look at the namespace helper shows.
#[derive(Debug, Clone)]
pub struct Helper {
    /// Whether the helper still runs.
    pub alive: bool,
    /// The number of its tasks.
    pub tasks: usize,
    /// The process ids of the children of its first task.
    pub children: Vec<u32>,
}

/// The mathematical content of a `Helper`.
#[verifier::ext_equal]
pub struct HelperModel {
    pub alive: bool,
    pub tasks: usize,
    pub children: Seq<u32>,
}

impl View for Helper {
    type V = HelperModel;

    open spec fn view(&self) -> HelperModel {
        HelperModel { alive: self.alive, tasks: self.tasks, children: self.children@ }
    }
}

/// The process table at one moment.
#[derive(Debug, Clone)]
pub struct Processes {
    /// The inode of the pid mount point, which identifies the pid namespace
    /// of the container; `None` where the mount point could not be read.
    pub pid_ns_id: Option<u64>,
    /// The processes that the host shows, in table order. Processes that
    /// went away during the scan are left out.
    pub list: Vec<Process>,
}

/// The mathematical content of a `Processes`.
#[verifier::ext_equal]
pub struct ProcessesModel {
    pub pid_ns_id: Option<u64>,
    pub list: Seq<ProcessModel>,
}

impl View for Processes {
    type V = ProcessesModel;

    open spec fn view(&self) -> ProcessesModel {
        ProcessesModel { pid_ns_id: self.pid_ns_id, list: self.list.deep_view() }
    }
}

/// How a step went.
#[derive(Debug, Clone)]
pub enum Event {
    /// The step was done; there is nothing to report.
    Done,
    /// The system refused the step. The text is its reason.
    Failed(String),
    /// The mount state.
    Mounts(Mounts),
    /// The process table.
    Processes(Processes),
    /// The names of the network interfaces of the host.
    Interfaces(Vec<String>),
    /// The state of the namespace helper.
    Helper(Helper),
    /// Whether the process lives.
    Alive(bool),
    /// A command ran to its end and left this.
    Output(Output),
    /// A command was started and has this process id.
    Spawned(u32),
}

/// The mathematical content of an `Event`.
#[verifier::ext_equal]
pub enum EventModel {
    Done,
    Failed(Seq<char>),
    Mounts(MountsModel),
    Processes(ProcessesModel),
    Interfaces(Seq<Seq<char>>),
    Helper(HelperModel),
    Alive(bool),
    Output(OutputModel),
    Spawned(u32),
}

impl View for Event {
    type V = EventModel;

    open spec fn view(&self) -> EventModel {
        match self {
            Event::Done => EventModel::Done,
            Event::Failed(reason) => EventModel::Failed(reason@),
            Event::Mounts(m) => EventModel::Mounts(m@),
            Event::Processes(p) => EventModel::Processes(p@),
            Event::Interfaces(names) => EventModel::Interfaces(names.deep_view()),
            Event::Helper(h) => EventModel::Helper(h@),
            Event::Alive(b) => EventModel::Alive(*b),
            Event::Output(o) => EventModel::Output(o@),
            Event::Spawned(pid) => EventModel::Spawned(*pid),
        }
    }
}

/// One operation on the host, spelled out: its paths and command lines.
#[derive(Debug, Clone)]
pub enum Request {
    /// Probe the five paths and read the mount table of the calling process.
    ReadMounts {
        base_dir: String,
        user_file: String,
        pid_file: String,
        mount_file: String,
        net_file: String,
    },
    /// Read the process table, and the inode of `pid_ns_file`.
    ReadProcesses { pid_ns_file: String },
    /// List the network interfaces.
    ListInterfaces,
    /// Report whether the process lives, how many tasks it has and the
    /// children of its first task.
    Inspect { pid: u32 },
    /// Report whether the process lives.
    Alive { pid: u32 },
    /// Wait for the end of a process started before and report its exit.
    Collect { pid: u32 },
    /// Create the directory and its parents unless it exists.
    CreateDirAll { path: String },
    /// Create the empty file unless it exists.
    CreateFile { path: String },
    /// Create or truncate the file and write the data.
    WriteFile { path: String, data: Vec<u8> },
    /// Bind-mount the directory onto itself.
    BindMount { path: String },
    /// Mark the mount at the path private.
    MakePrivate { path: String },
    /// Unmount what is mounted at the path.
    Unmount { path: String },
    /// Run the command to its end.
    Run { cmd: Cmd, stdout: Stream, stderr: Stream },
    /// Start the command and let it run.
    Spawn { cmd: Cmd, stdout: Stream, stderr: Stream },
    /// Send the termination signal to the process.
    Terminate { pid: u32 },
    /// Pause.
    Sleep { millis: u64 },
}

/// The mathematical content of a `Request`.
#[verifier::ext_equal]
pub enum RequestModel {
    ReadMounts {
        base_dir: Seq<char>,
        user_file: Seq<char>,
        pid_file: Seq<char>,
        mount_file: Seq<char>,
        net_file: Seq<char>,
    },
    ReadProcesses { pid_ns_file: Seq<char> },
    ListInterfaces,
    Inspect { pid: u32 },
    Alive { pid: u32 },
    Collect { pid: u32 },
    CreateDirAll { path: Seq<char> },
    CreateFile { path: Seq<char> },
    WriteFile { path: Seq<char>, data: Seq<u8> },
    BindMount { path: Seq<char> },
    MakePrivate { path: Seq<char> },
    Unmount { path: Seq<char> },
    Run { cmd: CmdModel, stdout: Stream, stderr: Stream },
    Spawn { cmd: CmdModel, stdout: Stream, stderr: Stream },
    Terminate { pid: u32 },
    Sleep { millis: u64 },
}

impl View for Request {
    type V = RequestModel;

    open spec fn view(&self) -> RequestModel {
        match self {
            Request::ReadMounts {
                base_dir,
                user_file,
                pid_file,
                mount_file,
                net_file,
            } => RequestModel::ReadMounts {
                base_dir: base_dir@,
                user_file: user_file@,
                pid_file: pid_file@,
                mount_file: mount_file@,
                net_file: net_file@,
            },
            Request::ReadProcesses { pid_ns_file } => RequestModel::ReadProcesses {
                pid_ns_file: pid_ns_file@,
            },
            Request::ListInterfaces => RequestModel::ListInterfaces,
            Request::Inspect { pid } => RequestModel::Inspect { pid: *pid },
            Request::Alive { pid } => RequestModel::Alive { pid: *pid },
            Request::Collect { pid } => RequestModel::Collect { pid: *pid },
            Request::CreateDirAll { path } => RequestModel::CreateDirAll { path: path@ },
            Request::CreateFile { path } => RequestModel::CreateFile { path: path@ },
            Request::WriteFile { path, data } => RequestModel::WriteFile {
                path: path@,
                data: data@,
            },
            Request::BindMount { path } => RequestModel::BindMount { path: path@ },
            Request::MakePrivate { path } => RequestModel::MakePrivate { path: path@ },
            Request::Unmount { path } => RequestModel::Unmount { path: path@ },
            Request::Run { cmd, stdout, stderr } => RequestModel::Run {
                cmd: cmd@,
                stdout: *stdout,
                stderr: *stderr,
            },
            Request::Spawn { cmd, stdout, stderr } => RequestModel::Spawn {
                cmd: cmd@,
                stdout: *stdout,
                stderr: *stderr,
            },
            Request::Terminate { pid } => RequestModel::Terminate { pid: *pid },
            Request::Sleep { millis } => RequestModel::Sleep { millis: *millis },
        }
    }
}

} // verus!
