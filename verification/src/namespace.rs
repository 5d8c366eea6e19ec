//! The persistent-namespace store: the four kinds, their mount points under
//! the base directory, and what a snapshot of the mount table says of them.

use crate::command::{Cmd, CmdModel};
use crate::error::{Error, ErrorModel};
use crate::fixed::{APPLICATION, ENTER};
use crate::text::{
    decimal, ends_with, first_where, join, joined, lemma_first_where_is, same, to_decimal,
};
use vstd::prelude::*;

verus! {

/// The four kinds of namespace that make up the container.
#[derive(Debug, Clone, Copy, PartialEq, Eq, Hash, Structural)]
pub enum Type {
    User,
    Pid,
    Mount,
    Net,
}

impl Type {
    /// The fixed name of the kind: the file name of its mount point and the
    /// word by which the namespace tools know it.
    pub open spec fn name(self) -> Seq<char> {
        match self {
            Type::User => "user"@,
            Type::Pid => "pid"@,
            Type::Mount => "mount"@,
            Type::Net => "net"@,
        }
    }

    /// The kinds in the order in which they are created and torn down.
    pub open spec fn order() -> Seq<Type> {
        seq![Type::User, Type::Pid, Type::Mount, Type::Net]
    }

    /// The name of the kind as a borrowed literal.
    pub fn as_str(&self) -> (r: &'static str)
        ensures
            r@ == self.name(),
    {
        match self {
            Type::User => "user",
            Type::Pid => "pid",
            Type::Mount => "mount",
            Type::Net => "net",
        }
    }

    /// The name of the kind.
    pub fn to_string(&self) -> (r: String)
        ensures
            r@ == self.name(),
    {
        String::from_str(self.as_str())
    }

    /// The four kinds, in creation order.
    pub fn all() -> (r: Vec<Type>)
        ensures
            r@ == Type::order(),
    {
        let r = vec![Type::User, Type::Pid, Type::Mount, Type::Net];
        assert(r@ =~= Type::order());
        r
    }
}

/// A set of namespace kinds, one flag per kind.
#[derive(Debug, Clone, Copy, PartialEq, Eq, Hash, Structural)]
pub struct TypeSet {
    pub user: bool,
    pub pid: bool,
    pub mount: bool,
    pub net: bool,
}

impl View for TypeSet {
    type V = Set<Type>;

    open spec fn view(&self) -> Set<Type> {
        Set::new(|k: Type| self.has(k))
    }
}

impl TypeSet {
    /// Whether the kind is in the set.
    pub open spec fn has(self, k: Type) -> bool {
        match k {
            Type::User => self.user,
            Type::Pid => self.pid,
            Type::Mount => self.mount,
            Type::Net => self.net,
        }
    }

    /// The number of kinds in the set.
    pub open spec fn count(self) -> nat {
        let u: nat = if self.user { 1 } else { 0 };
        let p: nat = if self.pid { 1 } else { 0 };
        let m: nat = if self.mount { 1 } else { 0 };
        let n: nat = if self.net { 1 } else { 0 };
        u + p + m + n
    }

    /// The set that `keep` describes.
    pub open spec fn of(keep: spec_fn(Type) -> bool) -> TypeSet {
        TypeSet {
            user: keep(Type::User),
            pid: keep(Type::Pid),
            mount: keep(Type::Mount),
            net: keep(Type::Net),
        }
    }

    /// The set of all four kinds.
    pub open spec fn all() -> TypeSet {
        TypeSet { user: true, pid: true, mount: true, net: true }
    }

    /// The set of no kind.
    pub open spec fn none() -> TypeSet {
        TypeSet { user: false, pid: false, mount: false, net: false }
    }

    /// The set without `k`.
    pub open spec fn without(self, k: Type) -> TypeSet {
        match k {
            Type::User => TypeSet { user: false, ..self },
            Type::Pid => TypeSet { pid: false, ..self },
            Type::Mount => TypeSet { mount: false, ..self },
            Type::Net => TypeSet { net: false, ..self },
        }
    }

    /// The flags are the set: the view is finite and has `count` elements.
    pub proof fn lemma_view(self)
        ensures
            self@.finite(),
            self@.len() == self.count(),
            forall|k: Type| self@.contains(k) == self.has(k),
    {
        let s0 = Set::<Type>::empty();
        let s1 = if self.user { s0.insert(Type::User) } else { s0 };
        let s2 = if self.pid { s1.insert(Type::Pid) } else { s1 };
        let s3 = if self.mount { s2.insert(Type::Mount) } else { s2 };
        let s4 = if self.net { s3.insert(Type::Net) } else { s3 };
        assert(self@ =~= s4);
    }

    /// The empty set.
    pub fn empty() -> (r: TypeSet)
        ensures
            r@ == Set::<Type>::empty(),
            r.count() == 0,
    {
        let r = TypeSet { user: false, pid: false, mount: false, net: false };
        assert(r@ =~= Set::<Type>::empty());
        r
    }

    /// The set with `k` added.
    pub fn insert(self, k: Type) -> (r: TypeSet)
        ensures
            r@ == self@.insert(k),
            forall|j: Type| r.has(j) == (j == k || self.has(j)),
    {
        let r = match k {
            Type::User => TypeSet { user: true, ..self },
            Type::Pid => TypeSet { pid: true, ..self },
            Type::Mount => TypeSet { mount: true, ..self },
            Type::Net => TypeSet { net: true, ..self },
        };
        assert(r@ =~= self@.insert(k));
        r
    }

    /// Whether `k` is in the set.
    pub fn contains(&self, k: Type) -> (r: bool)
        ensures
            r == self@.contains(k),
            r == self.has(k),
    {
        match k {
            Type::User => self.user,
            Type::Pid => self.pid,
            Type::Mount => self.mount,
            Type::Net => self.net,
        }
    }

    /// The number of kinds in the set.
    pub fn len(&self) -> (r: usize)
        ensures
            r == self@.len(),
            r == self.count(),
            r <= 4,
    {
        proof {
            self.lemma_view();
        }
        let mut r: usize = 0;
        if self.user {
            r += 1;
        }
        if self.pid {
            r += 1;
        }
        if self.mount {
            r += 1;
        }
        if self.net {
            r += 1;
        }
        r
    }

    /// Whether the set holds no kind.
    pub fn is_empty(&self) -> (r: bool)
        ensures
            r == (self@ == Set::<Type>::empty()),
            r == (self.count() == 0),
    {
        let r = !self.user && !self.pid && !self.mount && !self.net;
        proof {
            self.lemma_view();
            if r {
                assert(self@ =~= Set::<Type>::empty());
            } else {
                assert(self@.len() > 0);
            }
        }
        r
    }
}

/// What a scan of the mount table says of the namespace set.
#[derive(Debug, Clone, Copy, PartialEq, Eq, Structural)]
pub enum Status {
    /// All four kinds are mounted.
    Ready,
    /// Some kinds are mounted, but not all: the set names them.
    Partial(TypeSet),
    /// No kind is mounted.
    Unmounted,
}

/// The status that a set of mounted kinds amounts to.
pub open spec fn status_of(mounted: TypeSet) -> Status {
    if mounted.count() == 0 {
        Status::Unmounted
    } else if mounted.count() == 4 {
        Status::Ready
    } else {
        Status::Partial(mounted)
    }
}

/// The data directory of an application as the platform convention has it.
/// This is `ProjectDirs::from` of the crate `directories`, and `data_dir` of
/// what it returns, as text.
/// The answer depends on the environment of the process, so nothing is
/// claimed of it; `None` means that no home directory could be found.
#[verifier::external_body]
fn project_data_dir(qualifier: &str, organization: &str, application: &str) -> (r: Option<
    String,
>) {
    match directories::ProjectDirs::from(qualifier, organization, application) {
        Some(dirs) => Some(dirs.data_dir().to_string_lossy().into_owned()),
        None => None,
    }
}

/// The base directory, given what the platform answered.
pub open spec fn base_dir_of(found: Option<Seq<char>>) -> Result<Seq<char>, ErrorModel> {
    match found {
        Some(dir) => Ok(dir),
        None => Err(ErrorModel::Configuration),
    }
}

/// The views of both sides of a result that holds a path.
pub open spec fn path_view(r: Result<String, Error>) -> Result<Seq<char>, ErrorModel> {
    match r {
        Ok(s) => Ok(s@),
        Err(e) => Err(e@),
    }
}

/// Makes the base directory of what the platform answered: the data
/// directory where it named one, else a configuration error.
pub fn resolve_base_dir(found: Option<String>) -> (r: Result<String, Error>)
    ensures
        path_view(r) == base_dir_of(found.deep_view()),
{
    match found {
        Some(dir) => Ok(dir),
        None => Err(Error::Configuration),
    }
}

/// The persistent directory under which the namespaces are kept: the data
/// directory of this tool. The only failure is a configuration error, where
/// the platform names no data directory.
pub fn base_dir() -> (r: Result<String, Error>)
    ensures
        r matches Err(e) ==> e@ == ErrorModel::Configuration,
{
    resolve_base_dir(project_data_dir("", "", APPLICATION))
}

/// The mount point of a kind: the base directory joined with the kind's name.
pub open spec fn mount_point_of(base_dir: Seq<char>, ns_type: Type) -> Seq<char> {
    joined(base_dir, ns_type.name())
}

/// The path at which the namespace of kind `ns_type` is kept.
pub fn mount_point(base_dir: &str, ns_type: Type) -> (path: String)
    ensures
        path@ == mount_point_of(base_dir@, ns_type),
{
    join(base_dir, ns_type.as_str())
}

/// What the file system says of one path.
#[derive(Debug, Clone)]
pub struct Probe {
    /// Whether the path exists.
    pub exists: bool,
    /// The path with links and dots resolved, where that succeeded.
    pub canonical: Option<String>,
}

/// The mathematical content of a `Probe`.
pub struct ProbeModel {
    pub exists: bool,
    pub canonical: Option<Seq<char>>,
}

impl View for Probe {
    type V = ProbeModel;

    open spec fn view(&self) -> ProbeModel {
        ProbeModel { exists: self.exists, canonical: self.canonical.deep_view() }
    }
}

impl ProbeModel {
    /// The resolved form of the probed path, or `path` itself where it did
    /// not resolve.
    pub open spec fn resolve(self, path: Seq<char>) -> Seq<char> {
        match self.canonical {
            Some(c) => c,
            None => path,
        }
    }
}

/// One entry of the mount table, its two paths resolved by the reader.
#[derive(Debug, Clone)]
pub struct MountEntry {
    /// The file-system type.
    pub fs_type: String,
    /// The mount source, where the table names one.
    pub source: Option<String>,
    /// The root of the mount within its file system, resolved; `None` where
    /// it does not resolve.
    pub root: Option<String>,
    /// The mount point, resolved; `None` where it does not resolve.
    pub target: Option<String>,
}

/// The mathematical content of a `MountEntry`.
pub struct MountEntryModel {
    pub fs_type: Seq<char>,
    pub source: Option<Seq<char>>,
    pub root: Option<Seq<char>>,
    pub target: Option<Seq<char>>,
}

impl View for MountEntry {
    type V = MountEntryModel;

    open spec fn view(&self) -> MountEntryModel {
        MountEntryModel {
            fs_type: self.fs_type@,
            source: self.source.deep_view(),
            root: self.root.deep_view(),
            target: self.target.deep_view(),
        }
    }
}

impl DeepView for MountEntry {
    type V = MountEntryModel;

    open spec fn deep_view(&self) -> MountEntryModel {
        self@
    }
}

impl MountEntryModel {
    /// Whether the entry is a namespace file mounted at `path`.
    pub open spec fn is_namespace_at(self, path: Seq<char>) -> bool {
        self.fs_type == "nsfs"@ && self.source == Some("nsfs"@) && self.target == Some(path)
    }

    /// Whether the entry binds the directory `dir` onto itself.
    pub open spec fn is_self_bind_of(self, dir: Seq<char>) -> bool {
        self.root == Some(dir) && self.target == Some(dir)
    }
}

/// A snapshot of the mount state: the base directory and the four mount
/// points probed, and the mount table of the calling process.
#[derive(Debug, Clone)]
pub struct Mounts {
    pub base: Probe,
    pub user: Probe,
    pub pid: Probe,
    pub mount: Probe,
    pub net: Probe,
    pub table: Vec<MountEntry>,
}

/// The mathematical content of a `Mounts`.
pub struct MountsModel {
    pub base: ProbeModel,
    pub user: ProbeModel,
    pub pid: ProbeModel,
    pub mount: ProbeModel,
    pub net: ProbeModel,
    pub table: Seq<MountEntryModel>,
}

impl View for Mounts {
    type V = MountsModel;

    open spec fn view(&self) -> MountsModel {
        MountsModel {
            base: self.base@,
            user: self.user@,
            pid: self.pid@,
            mount: self.mount@,
            net: self.net@,
            table: self.table.deep_view(),
        }
    }
}

impl MountsModel {
    /// The probe of the mount point of `ns_type`.
    pub open spec fn probe(self, ns_type: Type) -> ProbeModel {
        match ns_type {
            Type::User => self.user,
            Type::Pid => self.pid,
            Type::Mount => self.mount,
            Type::Net => self.net,
        }
    }

    /// Whether the table holds a namespace file mounted at `path`.
    pub open spec fn has_namespace_at(self, path: Seq<char>) -> bool {
        exists|i: int| 0 <= i < self.table.len() && (#[trigger] self.table[i]).is_namespace_at(path)
    }

    /// Whether the table holds a bind mount of `dir` onto itself.
    pub open spec fn has_self_bind_of(self, dir: Seq<char>) -> bool {
        exists|i: int| 0 <= i < self.table.len() && (#[trigger] self.table[i]).is_self_bind_of(dir)
    }

    /// Whether the namespace of kind `ns_type` is mounted: its mount point
    /// exists, and a namespace file is mounted at its resolved path.
    pub open spec fn mounted(self, base_dir: Seq<char>, ns_type: Type) -> bool {
        let probe = self.probe(ns_type);
        probe.exists && self.has_namespace_at(probe.resolve(mount_point_of(base_dir, ns_type)))
    }

    /// The kinds that are mounted.
    pub open spec fn mounted_set(self, base_dir: Seq<char>) -> TypeSet {
        TypeSet::of(|k: Type| self.mounted(base_dir, k))
    }
}

impl Mounts {
    /// The probe of the mount point of `ns_type`.
    pub fn probe(&self, ns_type: Type) -> (r: &Probe)
        ensures
            r@ == self@.probe(ns_type),
    {
        match ns_type {
            Type::User => &self.user,
            Type::Pid => &self.pid,
            Type::Mount => &self.mount,
            Type::Net => &self.net,
        }
    }
}

fn is_some_str(o: &Option<String>, s: &str) -> (r: bool)
    ensures
        r == (o.deep_view() == Some(s@)),
{
    match o {
        Some(x) => same(x.as_str(), s),
        None => false,
    }
}

/// Whether the namespace of kind `ns_type` is mounted according to the
/// snapshot. A mount point that does not exist is not mounted; otherwise the
/// table is searched for a namespace-file entry whose resolved target is the
/// resolved mount point. Entries whose target did not resolve never match.
pub fn is_mounted(base_dir: &str, ns_type: Type, mounts: &Mounts) -> (r: bool)
    ensures
        r == mounts@.mounted(base_dir@, ns_type),
{
    let probe = mounts.probe(ns_type);
    if !probe.exists {
        return false;
    }
    let path = match &probe.canonical {
        Some(c) => c.clone(),
        None => mount_point(base_dir, ns_type),
    };
    assert(path@ == mounts@.probe(ns_type).resolve(mount_point_of(base_dir@, ns_type)));
    let mut i: usize = 0;
    while i < mounts.table.len()
        invariant
            0 <= i <= mounts.table.len(),
            mounts@.probe(ns_type).exists,
            path@ == mounts@.probe(ns_type).resolve(mount_point_of(base_dir@, ns_type)),
            forall|j: int|
                0 <= j < i ==> !(#[trigger] mounts@.table[j]).is_namespace_at(path@),
        decreases mounts.table.len() - i,
    {
        let entry = &mounts.table[i];
        assert(mounts@.table[i as int] == entry@);
        if same(entry.fs_type.as_str(), "nsfs") && is_some_str(&entry.source, "nsfs")
            && is_some_str(&entry.target, path.as_str()) {
            assert(mounts@.table[i as int].is_namespace_at(path@));
            return true;
        }
        i += 1;
    }
    false
}

/// The status of the namespace set according to the snapshot: `Unmounted`
/// when no kind is mounted, `Ready` when all four are, else `Partial` with
/// the kinds that are.
pub fn status(base_dir: &str, mounts: &Mounts) -> (r: Status)
    ensures
        r == status_of(mounts@.mounted_set(base_dir@)),
        r matches Status::Partial(set) ==> 1 <= set@.len() <= 3,
{
    let set = TypeSet {
        user: is_mounted(base_dir, Type::User, mounts),
        pid: is_mounted(base_dir, Type::Pid, mounts),
        mount: is_mounted(base_dir, Type::Mount, mounts),
        net: is_mounted(base_dir, Type::Net, mounts),
    };
    let n = set.len();
    if set.is_empty() {
        Status::Unmounted
    } else if n == 4 {
        Status::Ready
    } else {
        Status::Partial(set)
    }
}

fn clone_strings(v: &Vec<String>) -> (r: Vec<String>)
    ensures
        r.deep_view() == v.deep_view(),
{
    let mut r: Vec<String> = Vec::new();
    let mut i: usize = 0;
    while i < v.len()
        invariant
            0 <= i <= v.len(),
            r.len() == i,
            forall|j: int| 0 <= j < i ==> r@[j]@ == v@[j]@,
        decreases v.len() - i,
    {
        r.push(v[i].clone());
        i += 1;
    }
    assert(r.deep_view() =~= v.deep_view());
    r
}

fn clone_opt(o: &Option<String>) -> (r: Option<String>)
    ensures
        r.deep_view() == o.deep_view(),
{
    match o {
        Some(s) => Some(s.clone()),
        None => None,
    }
}

/// Makes `wrapper` run `cmd`: the program of `cmd` and then its arguments are
/// appended as arguments, and where `cmd` names a working directory the
/// wrapper takes it over.
pub fn wrap_cmd(wrapper: &mut Cmd, cmd: &Cmd)
    ensures
        final(wrapper)@ == old(wrapper)@.wrap(cmd@),
{
    let ghost before = wrapper.args.deep_view();
    wrapper.args.push(cmd.program.clone());
    assert(wrapper.args.deep_view() =~= before.push(cmd@.program));
    let mut i: usize = 0;
    while i < cmd.args.len()
        invariant
            0 <= i <= cmd.args.len(),
            wrapper.program == old(wrapper).program,
            wrapper.cwd == old(wrapper).cwd,
            before == old(wrapper).args.deep_view(),
            wrapper.args.deep_view() == before.push(cmd@.program) + cmd@.args.take(i as int),
        decreases cmd.args.len() - i,
    {
        let ghost prev = wrapper.args.deep_view();
        wrapper.args.push(cmd.args[i].clone());
        assert(wrapper.args.deep_view() =~= prev.push(cmd@.args[i as int]));
        assert(cmd@.args.take(i + 1) =~= cmd@.args.take(i as int).push(cmd@.args[i as int]));
        i += 1;
    }
    assert(cmd@.args.take(cmd.args.len() as int) =~= cmd@.args);
    if cmd.cwd.is_some() {
        wrapper.cwd = clone_opt(&cmd.cwd);
    }
}

/// The argument that names the namespace file of one kind to the entry tool.
pub open spec fn entry_flag(base_dir: Seq<char>, ns_type: Type) -> Seq<char> {
    "--"@ + ns_type.name() + "="@ + mount_point_of(base_dir, ns_type)
}

/// `cmd` made to run inside the one namespace of kind `ns_type`, all other
/// namespaces left as the caller's.
pub open spec fn inside_namespace(base_dir: Seq<char>, ns_type: Type, cmd: CmdModel) -> CmdModel {
    CmdModel::new(ENTER@).arg(entry_flag(base_dir, ns_type)).wrap(cmd)
}

/// `cmd` made to run inside every namespace of the process `ns_pid`.
pub open spec fn inside_all_namespaces(cmd: CmdModel, ns_pid: u32) -> CmdModel {
    CmdModel::new(ENTER@).arg("-a"@).arg("-t"@).arg(decimal(ns_pid as nat)).wrap(cmd)
}

/// The command that runs `cmd` after entering exactly the namespace of kind
/// `ns_type` through its mount point. Program, arguments and working
/// directory of `cmd` are kept.
pub fn run_inside_namespace(base_dir: &str, ns_type: Type, cmd: &Cmd) -> (r: Cmd)
    ensures
        r@ == inside_namespace(base_dir@, ns_type, cmd@),
{
    let mut flag = String::from_str("--");
    flag.append(ns_type.as_str());
    flag.append("=");
    let path = mount_point(base_dir, ns_type);
    flag.append(path.as_str());
    let mut r = Cmd::new(ENTER).arg(flag.as_str());
    wrap_cmd(&mut r, cmd);
    r
}

/// The command that runs `cmd` after joining every namespace of the living
/// process `ns_pid`.
pub fn spawn_inside_all_namespaces(cmd: &Cmd, ns_pid: u32) -> (r: Cmd)
    ensures
        r@ == inside_all_namespaces(cmd@, ns_pid),
{
    let pid = to_decimal(ns_pid as u64);
    let mut r = Cmd::new(ENTER).arg("-a").arg("-t").arg(pid.as_str());
    wrap_cmd(&mut r, cmd);
    r
}

/// One process as the process table shows it. What could not be read of it
/// is `None`.
#[derive(Debug, Clone)]
pub struct Process {
    pub pid: u32,
    /// The command line, word by word.
    pub cmdline: Option<Vec<String>>,
    /// The identifier of its pid namespace.
    pub pid_ns: Option<u64>,
    /// The identifier of its network namespace.
    pub net_ns: Option<u64>,
}

/// The mathematical content of a `Process`.
#[verifier::ext_equal]
pub struct ProcessModel {
    pub pid: u32,
    pub cmdline: Option<Seq<Seq<char>>>,
    pub pid_ns: Option<u64>,
    pub net_ns: Option<u64>,
}

impl View for Process {
    type V = ProcessModel;

    open spec fn view(&self) -> ProcessModel {
        ProcessModel {
            pid: self.pid,
            cmdline: self.cmdline.deep_view(),
            pid_ns: self.pid_ns,
            net_ns: self.net_ns,
        }
    }
}

impl DeepView for Process {
    type V = ProcessModel;

    open spec fn deep_view(&self) -> ProcessModel {
        self@
    }
}

impl ProcessModel {
    /// The first word of the command line, where it could be read and is
    /// not empty.
    pub open spec fn argv0(self) -> Option<Seq<char>> {
        match self.cmdline {
            Some(words) => if words.len() > 0 {
                Some(words[0])
            } else {
                None
            },
            None => None,
        }
    }

    /// Whether the first word of the command line ends with `name`.
    pub open spec fn runs(self, name: Seq<char>) -> bool {
        self.argv0() matches Some(w) && name.is_suffix_of(w)
    }

    /// Whether the first word of the command line is `name`.
    pub open spec fn is(self, name: Seq<char>) -> bool {
        self.argv0() == Some(name)
    }

    /// Whether the process is known to live in another network namespace
    /// than `root`, that of process 1.
    pub open spec fn outside(self, root: Option<u64>) -> bool {
        self.net_ns is Some && self.net_ns != root
    }
}

impl Process {
    /// The first word of the command line, where it could be read and is
    /// not empty.
    pub fn argv0(&self) -> (r: Option<&str>)
        ensures
            r.deep_view() == self@.argv0(),
    {
        match &self.cmdline {
            Some(words) => if words.len() > 0 {
                assert(self@.cmdline->0[0] == words@[0]@);
                Some(words[0].as_str())
            } else {
                None
            },
            None => None,
        }
    }

    /// Whether the first word of the command line ends with `name`.
    pub fn runs(&self, name: &str) -> (r: bool)
        ensures
            r == self@.runs(name@),
    {
        match self.argv0() {
            Some(w) => ends_with(w, name),
            None => false,
        }
    }

    /// Whether the first word of the command line is `name`.
    pub fn is(&self, name: &str) -> (r: bool)
        ensures
            r == self@.is(name@),
    {
        match self.argv0() {
            Some(w) => same(w, name),
            None => false,
        }
    }

    /// A copy of the record.
    pub fn copy(&self) -> (r: Process)
        ensures
            r@ == self@,
    {
        Process {
            pid: self.pid,
            cmdline: match &self.cmdline {
                Some(words) => Some(clone_strings(words)),
                None => None,
            },
            pid_ns: self.pid_ns,
            net_ns: self.net_ns,
        }
    }
}

/// The network namespace of process 1 according to the table, where the
/// table shows it.
pub open spec fn root_net_ns(list: Seq<ProcessModel>) -> Option<u64> {
    let i = first_where(list, |p: ProcessModel| p.pid == 1);
    if 0 <= i < list.len() {
        list[i].net_ns
    } else {
        None
    }
}

/// The process id that `find_process_in_namespace` answers: that of the
/// first process in table order that runs `name` outside the network
/// namespace of process 1.
pub open spec fn found_in_namespace(name: Seq<char>, list: Seq<ProcessModel>) -> Option<u32> {
    let root = root_net_ns(list);
    let i = first_where(list, |p: ProcessModel| p.runs(name) && p.outside(root));
    if 0 <= i < list.len() {
        Some(list[i].pid)
    } else {
        None
    }
}

/// As `found_in_namespace`, but the first word of the command line has to
/// be `name` itself.
pub open spec fn found_exactly_in_namespace(name: Seq<char>, list: Seq<ProcessModel>) -> Option<
    u32,
> {
    let root = root_net_ns(list);
    let i = first_where(list, |p: ProcessModel| p.is(name) && p.outside(root));
    if 0 <= i < list.len() {
        Some(list[i].pid)
    } else {
        None
    }
}

fn find_root_net_ns(list: &Vec<Process>) -> (r: Option<u64>)
    ensures
        r == root_net_ns(list.deep_view()),
{
    let ghost p = |p: ProcessModel| p.pid == 1;
    let mut i: usize = 0;
    while i < list.len()
        invariant
            0 <= i <= list.len(),
            p == |p: ProcessModel| p.pid == 1,
            forall|j: int| 0 <= j < i ==> !p(#[trigger] list.deep_view()[j]),
        decreases list.len() - i,
    {
        if list[i].pid == 1 {
            proof {
                assert(list.deep_view()[i as int] == list@[i as int]@);
                lemma_first_where_is(list.deep_view(), p, i as int);
            }
            return list[i].net_ns;
        }
        assert(list.deep_view()[i as int] == list@[i as int]@);
        i += 1;
    }
    proof {
        lemma_first_where_is(list.deep_view(), p, list.len() as int);
    }
    None
}

fn outside(p: &Process, root: Option<u64>) -> (r: bool)
    ensures
        r == p@.outside(root),
{
    match p.net_ns {
        Some(n) => match root {
            Some(m) => n != m,
            None => true,
        },
        None => false,
    }
}

/// Looks for a process that runs `name` inside the container: the first
/// process in table order whose first command-line word ends with `name` and
/// whose network namespace is known and is not that of process 1.
pub fn find_process_in_namespace(name: &str, list: &Vec<Process>) -> (r: Option<u32>)
    ensures
        r == found_in_namespace(name@, list.deep_view()),
{
    let root = find_root_net_ns(list);
    let ghost p = |p: ProcessModel| p.runs(name@) && p.outside(root);
    let mut i: usize = 0;
    while i < list.len()
        invariant
            0 <= i <= list.len(),
            root == root_net_ns(list.deep_view()),
            p == |p: ProcessModel| p.runs(name@) && p.outside(root),
            forall|j: int| 0 <= j < i ==> !p(#[trigger] list.deep_view()[j]),
        decreases list.len() - i,
    {
        assert(list.deep_view()[i as int] == list@[i as int]@);
        if list[i].runs(name) && outside(&list[i], root) {
            proof {
                lemma_first_where_is(list.deep_view(), p, i as int);
            }
            return Some(list[i].pid);
        }
        i += 1;
    }
    proof {
        lemma_first_where_is(list.deep_view(), p, list.len() as int);
    }
    None
}

/// As `find_process_in_namespace`, but the first command-line word has to be
/// `name` itself.
pub fn find_exactly_in_namespace(name: &str, list: &Vec<Process>) -> (r: Option<u32>)
    ensures
        r == found_exactly_in_namespace(name@, list.deep_view()),
{
    let root = find_root_net_ns(list);
    let ghost p = |p: ProcessModel| p.is(name@) && p.outside(root);
    let mut i: usize = 0;
    while i < list.len()
        invariant
            0 <= i <= list.len(),
            root == root_net_ns(list.deep_view()),
            p == |p: ProcessModel| p.is(name@) && p.outside(root),
            forall|j: int| 0 <= j < i ==> !p(#[trigger] list.deep_view()[j]),
        decreases list.len() - i,
    {
        assert(list.deep_view()[i as int] == list@[i as int]@);
        if list[i].is(name) && outside(&list[i], root) {
            proof {
                lemma_first_where_is(list.deep_view(), p, i as int);
            }
            return Some(list[i].pid);
        }
        i += 1;
    }
    proof {
        lemma_first_where_is(list.deep_view(), p, list.len() as int);
    }
    None
}

/// The processes of `list` whose pid namespace is `pid_ns_id`, in table
/// order.
pub open spec fn in_pid_ns(list: Seq<ProcessModel>, pid_ns_id: u64) -> Seq<ProcessModel> {
    list.filter(|p: ProcessModel| p.pid_ns == Some(pid_ns_id))
}

/// The processes that live in the pid namespace with identifier `pid_ns_id`,
/// which is the inode of the pid mount point. Processes whose namespace could
/// not be read are left out.
pub fn all_ns_processes(pid_ns_id: u64, list: &Vec<Process>) -> (r: Vec<Process>)
    ensures
        r.deep_view() == in_pid_ns(list.deep_view(), pid_ns_id),
{
    let ghost keep = |p: ProcessModel| p.pid_ns == Some(pid_ns_id);
    let mut r: Vec<Process> = Vec::new();
    let mut i: usize = 0;
    proof {
        reveal(Seq::filter);
        assert(list.deep_view().take(0) =~= Seq::<ProcessModel>::empty());
        assert(r.deep_view() =~= Seq::<ProcessModel>::empty());
    }
    while i < list.len()
        invariant
            0 <= i <= list.len(),
            keep == |p: ProcessModel| p.pid_ns == Some(pid_ns_id),
            r.deep_view() == list.deep_view().take(i as int).filter(keep),
        decreases list.len() - i,
    {
        let ghost prev = r.deep_view();
        let ghost next = list.deep_view().take(i + 1);
        let hit = match list[i].pid_ns {
            Some(id) => id == pid_ns_id,
            None => false,
        };
        if hit {
            r.push(list[i].copy());
            assert(r.deep_view() =~= prev.push(list@[i as int]@));
        }
        proof {
            assert(next.drop_last() =~= list.deep_view().take(i as int));
            assert(next.last() == list@[i as int]@);
            assert(hit == keep(next.last()));
            reveal(Seq::filter);
            assert(next.filter(keep) == if keep(next.last()) {
                next.drop_last().filter(keep).push(next.last())
            } else {
                next.drop_last().filter(keep)
            });
        }
        i += 1;
    }
    assert(list.deep_view().take(list.len() as int) =~= list.deep_view());
    r
}

/// The three statuses part the sets of kinds between them: `Unmounted` is
/// the empty set, `Ready` the full one, and `Partial` holds every other set,
/// which has one, two or three kinds.
pub proof fn law_status_parts_the_sets(mounted: TypeSet)
    ensures
        status_of(mounted) == Status::Unmounted <==> mounted@ == Set::<Type>::empty(),
        status_of(mounted) == Status::Ready <==> mounted@ == Set::<Type>::full(),
        status_of(mounted) matches Status::Partial(set) ==> set == mounted && 1 <= set@.len()
            <= 3,
{
    mounted.lemma_view();
    if mounted.count() == 0 {
        assert(mounted@ =~= Set::<Type>::empty());
    } else {
        assert(mounted@.len() > 0);
    }
    if mounted.count() == 4 {
        assert(mounted@ =~= Set::<Type>::full());
    } else {
        if mounted@ == Set::<Type>::full() {
            assert(mounted@.contains(Type::User));
            assert(mounted@.contains(Type::Pid));
            assert(mounted@.contains(Type::Mount));
            assert(mounted@.contains(Type::Net));
        }
    }
}

/// Nothing is mounted where no mount point exists, as in a base directory
/// that was just created: `is_mounted` is false for all four kinds, and the
/// status is `Unmounted`.
pub proof fn law_nothing_mounted_without_mount_points(base_dir: Seq<char>, mounts: MountsModel)
    requires
        forall|k: Type| !(#[trigger] mounts.probe(k)).exists,
    ensures
        forall|k: Type| !mounts.mounted(base_dir, k),
        status_of(mounts.mounted_set(base_dir)) == Status::Unmounted,
{
    assert(!mounts.probe(Type::User).exists);
    assert(!mounts.probe(Type::Pid).exists);
    assert(!mounts.probe(Type::Mount).exists);
    assert(!mounts.probe(Type::Net).exists);
}

/// All four kinds are mounted together where each mount point exists and the
/// mount table holds a namespace file at its resolved path, as after the
/// namespaces were created: `is_mounted` is true for every kind, and the
/// status is `Ready`.
pub proof fn law_all_mounted_with_namespace_files(base_dir: Seq<char>, mounts: MountsModel)
    requires
        forall|k: Type|
            (#[trigger] mounts.probe(k)).exists && mounts.has_namespace_at(
                mounts.probe(k).resolve(mount_point_of(base_dir, k)),
            ),
    ensures
        forall|k: Type| mounts.mounted(base_dir, k),
        status_of(mounts.mounted_set(base_dir)) == Status::Ready,
{
    assert(mounts.probe(Type::User).exists);
    assert(mounts.probe(Type::Pid).exists);
    assert(mounts.probe(Type::Mount).exists);
    assert(mounts.probe(Type::Net).exists);
}

} // verus!
