//! Command lines as data, and their hand-over to `duct` for running.

use vstd::prelude::*;

verus! {

/// `duct`'s expression type: a command ready to be run.
#[verifier::external_type_specification]
#[verifier::external_body]
pub struct ExDuctExpression(duct::Expression);

/// What `duct::cmd` returns for a program and its arguments.
pub uninterp spec fn duct_cmd_result(program: Seq<char>, args: Seq<Seq<char>>) -> duct::Expression;

/// What `Expression::stdin_bytes` returns for an expression and the text fed to it.
pub uninterp spec fn duct_stdin_bytes_result(expr: duct::Expression, input: Seq<char>) -> duct::Expression;

/// Calls `duct::cmd(program, args)`, which builds (and does not run) the
/// expression that runs `program` with `args`; the result is named by
/// `duct_cmd_result` of the program and the arguments.
#[verifier::external_body]
fn duct_cmd(program: String, args: Vec<String>) -> (res: duct::Expression)
    ensures
        res == duct_cmd_result(program@, args.deep_view()),
{
    duct::cmd(program, args)
}

/// Calls `Expression::stdin_bytes`, which builds (and does not run) the
/// expression that feeds the UTF-8 bytes of `input` to the standard input of
/// `expr`; the result is named by `duct_stdin_bytes_result`.
#[verifier::external_body]
fn duct_stdin_bytes(expr: &duct::Expression, input: String) -> (res: duct::Expression)
    ensures
        res == duct_stdin_bytes_result(*expr, input@),
{
    expr.stdin_bytes(input)
}

/// The content of a command under construction.
#[verifier::ext_equal]
pub struct CmdView {
    pub program: Seq<char>,
    pub args: Seq<Seq<char>>,
}

/// The content of a finished command line.
#[verifier::ext_equal]
pub struct ExprView {
    /// The program to run.
    pub program: Seq<char>,
    /// Its arguments, in order.
    pub args: Seq<Seq<char>>,
    /// Text fed to its standard input, if any.
    pub stdin: Option<Seq<char>>,
    /// Milliseconds to wait before running it, if any.
    pub wait_ms: Option<u64>,
}

/// The command line that runs `program` with `args`, with nothing on its
/// standard input and no wait.
pub open spec fn run(program: Seq<char>, args: Seq<Seq<char>>) -> ExprView {
    ExprView { program, args, stdin: None, wait_ms: None }
}

impl ExprView {
    /// The same command line, fed `text` on its standard input.
    pub open spec fn with_stdin(self, text: Seq<char>) -> ExprView {
        ExprView { stdin: Some(text), ..self }
    }

    /// The same command line, run after waiting `ms` milliseconds.
    pub open spec fn with_wait(self, ms: u64) -> ExprView {
        ExprView { wait_ms: Some(ms), ..self }
    }
}

impl CmdView {
    /// The command with one more argument at the end.
    pub open spec fn with_arg(self, arg: Seq<char>) -> CmdView {
        CmdView { program: self.program, args: self.args.push(arg) }
    }

    /// The command with more arguments at the end, in order.
    pub open spec fn with_args(self, more: Seq<Seq<char>>) -> CmdView {
        CmdView { program: self.program, args: self.args + more }
    }
}

/// A command under construction: a program and its arguments.
#[derive(Debug, PartialEq, Eq)]
pub struct Cmd {
    pub program: String,
    pub args: Vec<String>,
}

impl View for Cmd {
    type V = CmdView;

    open spec fn view(&self) -> CmdView {
        CmdView { program: self.program@, args: self.args.deep_view() }
    }
}

/// A command line: a program, its arguments, text for its standard input
/// and a delay before it runs.
#[derive(Debug, PartialEq, Eq)]
pub struct Expr {
    pub program: String,
    pub args: Vec<String>,
    pub stdin: Option<String>,
    pub wait_ms: Option<u64>,
}

impl View for Expr {
    type V = ExprView;

    open spec fn view(&self) -> ExprView {
        ExprView {
            program: self.program@,
            args: self.args.deep_view(),
            stdin: match self.stdin {
                Some(t) => Some(t@),
                None => None,
            },
            wait_ms: self.wait_ms,
        }
    }
}

impl DeepView for Expr {
    type V = ExprView;

    open spec fn deep_view(&self) -> ExprView {
        self@
    }
}

impl Cmd {
    /// A command that runs `program` with no arguments yet.
    pub fn new(program: &str) -> (res: Cmd)
        ensures
            res@ == (CmdView { program: program@, args: Seq::empty() }),
    {
        let res = Cmd { program: program.to_owned(), args: Vec::new() };
        assert(res.args.deep_view() =~= Seq::<Seq<char>>::empty());
        res
    }

    /// The command with `arg` added as its last argument.
    pub fn arg(self, arg: &str) -> (res: Cmd)
        ensures
            res@ == self@.with_arg(arg@),
    {
        let mut c = self;
        let ghost before = c.args.deep_view();
        c.args.push(arg.to_owned());
        assert(c.args.deep_view() =~= before.push(arg@));
        c
    }

    /// The command with `arg1` then `arg2` added as its last arguments.
    pub fn opt(self, arg1: &str, arg2: &str) -> (res: Cmd)
        ensures
            res@ == self@.with_arg(arg1@).with_arg(arg2@),
    {
        self.arg(arg1).arg(arg2)
    }

    /// The command with all of `items`, in order, added as its last arguments.
    pub fn args(self, items: &Vec<String>) -> (res: Cmd)
        ensures
            res@ == self@.with_args(items.deep_view()),
    {
        let mut c = self;
        let ghost start = c.args.deep_view();
        let n = items.len();
        let mut i: usize = 0;
        while i < n
            invariant
                n == items.len(),
                i <= n,
                c.program@ == self.program@,
                start == self.args.deep_view(),
                c.args.deep_view() == start + items.deep_view().take(i as int),
            decreases n - i,
        {
            let ghost before = c.args.deep_view();
            c.args.push(items[i].clone());
            assert(c.args.deep_view() =~= before.push(items[i as int]@));
            assert(items.deep_view().take(i + 1) =~= items.deep_view().take(i as int).push(
                items[i as int]@,
            ));
            i = i + 1;
        }
        assert(items.deep_view().take(n as int) =~= items.deep_view());
        c
    }

    /// The finished command line: no standard input, no wait.
    pub fn to_expr(self) -> (res: Expr)
        ensures
            res@ == run(self@.program, self@.args),
    {
        Expr { program: self.program, args: self.args, stdin: None, wait_ms: None }
    }

    /// The finished command line, to be run after waiting `ms` milliseconds.
    pub fn to_expr_with_wait(self, ms: u64) -> (res: Expr)
        ensures
            res@ == run(self@.program, self@.args).with_wait(ms),
    {
        Expr { program: self.program, args: self.args, stdin: None, wait_ms: Some(ms) }
    }
}

impl Expr {
    /// The same command line, fed `text` on its standard input.
    pub fn input(self, text: &str) -> (res: Expr)
        ensures
            res@ == self@.with_stdin(text@),
    {
        Expr { stdin: Some(text.to_owned()), ..self }
    }

    /// The `duct` expression that runs this command line with its standard
    /// input; the wait is left to whoever runs it.
    pub fn to_duct(&self) -> (res: duct::Expression)
        ensures
            res == (match self@.stdin {
                Some(text) => duct_stdin_bytes_result(
                    duct_cmd_result(self@.program, self@.args),
                    text,
                ),
                None => duct_cmd_result(self@.program, self@.args),
            }),
    {
        let base = duct_cmd(self.program.clone(), self.args.clone());
        match &self.stdin {
            Some(text) => duct_stdin_bytes(&base, text.clone()),
            None => base,
        }
    }
}

} // verus!
