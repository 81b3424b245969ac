use vstd::prelude::*;
use vstd::string::*;

verus! {

/// One of the two interchangeable compiler executables.
#[derive(Clone, Copy, Debug, PartialEq, Eq, Structural)]
pub enum Backend {
    /// The C++ implementation of the compiler.
    Solc,
    /// The JavaScript implementation of the compiler.
    Solcjs,
}

/// The executable name of a backend.
pub open spec fn backend_name(b: Backend) -> Seq<char> {
    match b {
        Backend::Solc => "solc"@,
        Backend::Solcjs => "solcjs"@,
    }
}

impl Backend {
    /// The executable name of this backend.
    pub fn name(&self) -> (r: String)
        ensures
            r@ == backend_name(*self),
    {
        match self {
            Backend::Solc => String::from_str("solc"),
            Backend::Solcjs => String::from_str("solcjs"),
        }
    }
}

/// A process to start: the program, its arguments, and the text written to its
/// standard input (`None`: no input is attached).
#[derive(Clone, Debug, PartialEq, Eq)]
pub struct Invocation {
    pub program: String,
    pub args: Vec<String>,
    pub input: Option<String>,
}

/// What an invocation holds, as plain sequences.
pub struct InvocationView {
    pub program: Seq<char>,
    pub args: Seq<Seq<char>>,
    pub input: Option<Seq<char>>,
}

pub open spec fn strings_view(v: Seq<String>) -> Seq<Seq<char>> {
    v.map_values(|s: String| s@)
}

impl View for Invocation {
    type V = InvocationView;

    open spec fn view(&self) -> InvocationView {
        InvocationView {
            program: self.program@,
            args: strings_view(self.args@),
            input: match self.input {
                Some(s) => Some(s@),
                None => None,
            },
        }
    }
}

/// `<backend> --version`, with no input.
pub open spec fn version_invocation(b: Backend) -> InvocationView {
    InvocationView { program: backend_name(b), args: seq!["--version"@], input: None }
}

/// `<backend> --standard-json`, with the request on standard input.
pub open spec fn standard_json_invocation(b: Backend, request: Seq<char>) -> InvocationView {
    InvocationView {
        program: backend_name(b),
        args: seq!["--standard-json"@],
        input: Some(request),
    }
}

/// `<backend> --bin --abi --overwrite --optimize --output-dir <dir> <file>`, with no input.
pub open spec fn file_invocation(b: Backend, file: Seq<char>, output_dir: Seq<char>) -> InvocationView {
    InvocationView {
        program: backend_name(b),
        args: seq![
            "--bin"@,
            "--abi"@,
            "--overwrite"@,
            "--optimize"@,
            "--output-dir"@,
            output_dir,
            file,
        ],
        input: None,
    }
}

/// The program followed by each argument, each preceded by one space.
pub open spec fn command_line(program: Seq<char>, args: Seq<Seq<char>>) -> Seq<char>
    decreases args.len(),
{
    if args.len() == 0 {
        program
    } else {
        command_line(program, args.drop_last()) + " "@ + args.last()
    }
}

/// The command line that names an invocation in error values.
pub open spec fn command_of(inv: InvocationView) -> Seq<char> {
    command_line(inv.program, inv.args)
}

impl Invocation {
    /// The command line of this invocation: the program and its arguments, joined by spaces.
    pub fn command(&self) -> (r: String)
        ensures
            r@ == command_of(self@),
    {
        let mut line = self.program.clone();
        let mut i: usize = 0;
        while i < self.args.len()
            invariant
                i <= self.args@.len(),
                line@ == command_line(self.program@, strings_view(self.args@).subrange(0, i as int)),
            decreases self.args@.len() - i,
        {
            let ghost prefix = strings_view(self.args@).subrange(0, i as int + 1);
            assert(prefix.drop_last() =~= strings_view(self.args@).subrange(0, i as int));
            line.append(" ");
            line.append(self.args[i].as_str());
            i = i + 1;
        }
        assert(strings_view(self.args@).subrange(0, i as int) =~= strings_view(self.args@));
        line
    }
}

/// Builds `<backend> --version`.
pub fn version_command(b: Backend) -> (r: Invocation)
    ensures
        r@ == version_invocation(b),
{
    let args = vec![String::from_str("--version")];
    let r = Invocation { program: b.name(), args, input: None };
    assert(r@.args =~= version_invocation(b).args);
    r
}

/// Builds `<backend> --standard-json` with `request` as its input.
pub fn standard_json_command(b: Backend, request: &str) -> (r: Invocation)
    ensures
        r@ == standard_json_invocation(b, request@),
{
    let args = vec![String::from_str("--standard-json")];
    let r = Invocation { program: b.name(), args, input: Some(request.to_owned()) };
    assert(r@.args =~= standard_json_invocation(b, request@).args);
    r
}

/// Builds the argument-mode compile of `file` into `output_dir`.
pub fn file_command(b: Backend, file: &str, output_dir: &str) -> (r: Invocation)
    ensures
        r@ == file_invocation(b, file@, output_dir@),
{
    let args = vec![
        String::from_str("--bin"),
        String::from_str("--abi"),
        String::from_str("--overwrite"),
        String::from_str("--optimize"),
        String::from_str("--output-dir"),
        output_dir.to_owned(),
        file.to_owned(),
    ];
    let r = Invocation { program: b.name(), args, input: None };
    assert(r@.args =~= file_invocation(b, file@, output_dir@).args);
    r
}

} // verus!
