//! The command line: the one address argument, and the usage message.

use vstd::prelude::*;
use vstd::std_specs::iter::IteratorSpec;
use vstd::string::*;

verus! {

broadcast use vstd::string::group_string_axioms;

/// Where the last component of `path` starts: just after its last `/`, or at 0
/// where it has none.
pub open spec fn name_start(path: Seq<char>) -> int
    decreases path.len(),
{
    if path.len() == 0 {
        0
    } else if path.last() == '/' {
        path.len() as int
    } else {
        name_start(path.drop_last())
    }
}

/// The last component of `path`: what follows its last `/`, or all of it.
pub open spec fn last_component(path: Seq<char>) -> Seq<char> {
    path.subrange(name_start(path), path.len() as int)
}

/// The last component is the longest tail of the path that holds no `/`: it
/// starts inside the path, no `/` follows its start, and a `/` stands just
/// before it unless it is the whole path.
pub proof fn last_component_follows_last_separator(path: Seq<char>)
    ensures
        0 <= name_start(path) <= path.len(),
        forall|i: int| name_start(path) <= i < path.len() ==> path[i] != '/',
        name_start(path) == 0 || path[name_start(path) - 1] == '/',
        !last_component(path).contains('/'),
    decreases path.len(),
{
    if path.len() > 0 && path.last() != '/' {
        let front = path.drop_last();
        last_component_follows_last_separator(front);
        assert forall|i: int| name_start(path) <= i < path.len() implies path[i] != '/' by {
            if i < front.len() {
                assert(path[i] == front[i]);
            }
        }
    }
    let name = last_component(path);
    assert forall|k: int| 0 <= k < name.len() implies name[k] != '/' by {
        assert(name[k] == path[name_start(path) + k]);
    }
}

/// The file name of a path: the part after the last `/`.
pub fn basename(path: &str) -> (name: &str)
    ensures
        name@ == last_component(path@),
{
    let n: usize = path.unicode_len();
    let mut chars = path.chars();
    let mut start: usize = 0;
    let mut seen: usize = 0;
    while seen < n
        invariant
            n == path@.len(),
            seen <= n,
            start == name_start(path@.take(seen as int)),
            0 <= start <= seen,
            chars.remaining() == path@.skip(seen as int),
        decreases n - seen,
    {
        let next = chars.next();
        assert(path@.skip(seen as int).drop_first() == path@.skip(seen + 1));
        assert(path@.take(seen + 1).drop_last() == path@.take(seen as int));
        seen = seen + 1;
        if next == Some('/') {
            start = seen;
        }
    }
    assert(path@.take(n as int) == path@);
    path.substring_char(start, n)
}

/// What the command line asks for.
#[derive(Debug, PartialEq, Eq)]
pub enum Invocation {
    /// Exactly one argument follows the program's name: the address to send to.
    Run { url: String },
    /// Any other number of arguments: the usage message for `program` is due.
    Usage { program: String },
    /// Not even the program's name is there.
    Unexpected,
}

/// The usage message: two lines that show how `program` is called.
pub open spec fn usage_lines(program: Seq<char>) -> Seq<Seq<char>> {
    seq![
        "usage: "@ + program + " URL"@,
        "   eg: "@ + program + " localhost:9200/idx/_doc"@,
    ]
}

impl Invocation {
    /// The exit code with which the process stops at once, where it does not
    /// run: 1 after the usage message, 99 where the arguments make no sense.
    pub fn exit_code(&self) -> (code: Option<i32>)
        ensures
            code == (match self {
                Invocation::Run { .. } => None::<i32>,
                Invocation::Usage { .. } => Some(1i32),
                Invocation::Unexpected => Some(99i32),
            }),
    {
        match self {
            Invocation::Run { .. } => None,
            Invocation::Usage { .. } => Some(1),
            Invocation::Unexpected => Some(99),
        }
    }
}

/// Reads the command line, program name first. One argument is the address; any
/// other number asks for the usage message, which names the program by the last
/// component of its path.
pub fn parse_args(args: &Vec<String>) -> (invocation: Invocation)
    ensures
        match invocation {
            Invocation::Run { url } => args@.len() == 2 && url@ == args@[1]@,
            Invocation::Usage { program } => args@.len() >= 1 && args@.len() != 2 && program@
                == last_component(args@[0]@),
            Invocation::Unexpected => args@.len() == 0,
        },
{
    if args.len() == 2 {
        Invocation::Run { url: args[1].clone() }
    } else if args.len() >= 1 {
        Invocation::Usage { program: basename(args[0].as_str()).to_owned() }
    } else {
        Invocation::Unexpected
    }
}

/// Writes the usage message for `program`.
pub fn usage(program: &str) -> (lines: Vec<String>)
    ensures
        lines@.len() == 2,
        lines@[0]@ == usage_lines(program@)[0],
        lines@[1]@ == usage_lines(program@)[1],
{
    let mut first = String::from_str("usage: ");
    first.append(program);
    first.append(" URL");
    let mut second = String::from_str("   eg: ");
    second.append(program);
    second.append(" localhost:9200/idx/_doc");
    let mut lines: Vec<String> = Vec::new();
    lines.push(first);
    lines.push(second);
    lines
}

} // verus!
