//! External commands as data: what is to be run, and what came back.

use vstd::prelude::*;

verus! {

/// An external command: the program, its arguments in order, and the
/// directory to run it in where that is not the caller's.
#[derive(Debug, Clone)]
pub struct Cmd {
    pub program: String,
    pub args: Vec<String>,
    pub cwd: Option<String>,
}

/// The mathematical content of a `Cmd`.
#[verifier::ext_equal]
pub struct CmdModel {
    pub program: Seq<char>,
    pub args: Seq<Seq<char>>,
    pub cwd: Option<Seq<char>>,
}

impl View for Cmd {
    type V = CmdModel;

    open spec fn view(&self) -> CmdModel {
        CmdModel {
            program: self.program@,
            args: self.args.deep_view(),
            cwd: self.cwd.deep_view(),
        }
    }
}

impl DeepView for Cmd {
    type V = CmdModel;

    open spec fn deep_view(&self) -> CmdModel {
        self@
    }
}

impl CmdModel {
    /// The command that runs `program` without arguments.
    pub open spec fn new(program: Seq<char>) -> CmdModel {
        CmdModel { program, args: Seq::empty(), cwd: None }
    }

    /// The command with one more argument.
    pub open spec fn arg(self, a: Seq<char>) -> CmdModel {
        CmdModel { args: self.args.push(a), ..self }
    }

    /// The command with more arguments.
    pub open spec fn args(self, more: Seq<Seq<char>>) -> CmdModel {
        CmdModel { args: self.args + more, ..self }
    }

    /// The command that runs `program` with `args`.
    pub open spec fn with(program: Seq<char>, args: Seq<Seq<char>>) -> CmdModel {
        CmdModel { program, args, cwd: None }
    }

    /// This command made to run `inner`: the program of `inner` and then its
    /// arguments follow as further arguments, and the working directory of
    /// `inner`, where it has one, replaces this one's.
    pub open spec fn wrap(self, inner: CmdModel) -> CmdModel {
        CmdModel {
            program: self.program,
            args: self.args.push(inner.program) + inner.args,
            cwd: if inner.cwd is Some {
                inner.cwd
            } else {
                self.cwd
            },
        }
    }
}

/// The views of string literals, in order.
pub open spec fn words(lits: Seq<&'static str>) -> Seq<Seq<char>> {
    lits.map_values(|s: &'static str| s@)
}

impl Cmd {
    /// A command that runs `program` without arguments.
    pub fn new(program: &str) -> (r: Cmd)
        ensures
            r@ == CmdModel::new(program@),
    {
        let r = Cmd { program: String::from_str(program), args: Vec::new(), cwd: None };
        assert(r@.args =~= Seq::<Seq<char>>::empty());
        r
    }

    /// Adds one argument.
    pub fn arg(self, a: &str) -> (r: Cmd)
        ensures
            r@ == self@.arg(a@),
    {
        let mut args = self.args;
        let ghost before = args.deep_view();
        args.push(String::from_str(a));
        assert(args.deep_view() =~= before.push(a@));
        Cmd { program: self.program, args, cwd: self.cwd }
    }

    /// Adds several literal arguments.
    pub fn args(self, more: Vec<&'static str>) -> (r: Cmd)
        ensures
            r@ == self@.args(words(more@)),
    {
        let mut args = self.args;
        let ghost before = args.deep_view();
        let mut i: usize = 0;
        while i < more.len()
            invariant
                0 <= i <= more.len(),
                args.deep_view() == before + words(more@).take(i as int),
            decreases more.len() - i,
        {
            let ghost prev = args.deep_view();
            args.push(String::from_str(more[i]));
            assert(args.deep_view() =~= prev.push(more@[i as int]@));
            assert(words(more@).take(i + 1) =~= words(more@).take(i as int).push(
                more@[i as int]@,
            ));
            i += 1;
        }
        assert(words(more@).take(more.len() as int) =~= words(more@));
        Cmd { program: self.program, args, cwd: self.cwd }
    }

    /// A command that runs `program` with the literal arguments `args`.
    pub fn with(program: &str, args: Vec<&'static str>) -> (r: Cmd)
        ensures
            r@ == CmdModel::with(program@, words(args@)),
    {
        let r = Cmd::new(program).args(args);
        assert(r@.args =~= words(args@));
        r
    }

    /// Sets the directory in which the command runs.
    pub fn current_dir(self, dir: &str) -> (r: Cmd)
        ensures
            r@ == (CmdModel { cwd: Some(dir@), ..self@ }),
    {
        Cmd { program: self.program, args: self.args, cwd: Some(String::from_str(dir)) }
    }
}

/// Where one of the output streams of a command goes.
#[derive(Debug, Clone, Copy, PartialEq, Eq, Structural)]
pub enum Stream {
    /// To the stream of the caller.
    Inherit,
    /// Into the `Output` that is handed back.
    Capture,
    /// Nowhere.
    Discard,
}

/// What a finished command left behind.
#[derive(Debug, Clone)]
pub struct Output {
    /// The exit code; `None` where a signal ended the command.
    pub code: Option<i32>,
    /// What was captured of standard output.
    pub stdout: Vec<u8>,
    /// What was captured of standard error.
    pub stderr: Vec<u8>,
}

/// The mathematical content of an `Output`.
#[verifier::ext_equal]
pub struct OutputModel {
    pub code: Option<i32>,
    pub stdout: Seq<u8>,
    pub stderr: Seq<u8>,
}

impl View for Output {
    type V = OutputModel;

    open spec fn view(&self) -> OutputModel {
        OutputModel { code: self.code, stdout: self.stdout@, stderr: self.stderr@ }
    }
}

impl OutputModel {
    /// Whether the command ended with exit code zero.
    pub open spec fn success(self) -> bool {
        self.code == Some(0i32)
    }
}

impl Output {
    /// Whether the command ended with exit code zero.
    pub fn success(&self) -> (r: bool)
        ensures
            r == self@.success(),
    {
        match self.code {
            Some(c) => c == 0,
            None => false,
        }
    }
}

} // verus!
