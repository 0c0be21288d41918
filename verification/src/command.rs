//! Benchmark commands and their reportable identifiers.
//!
//! A `BenchmarkCommand` is a name together with a non-empty argv.  Each
//! execution derives a `NameAndUri` from it: a stable identifier that the
//! instrumentation runtime uses to correlate measurements with the command.
//! The identifier is a pure function of the name and the argv, so repeated
//! derivations from the same inputs agree.

use vstd::prelude::*;

verus! {

/// One benchmark to run: a display name and the argv of the process to spawn.
#[derive(Debug, Clone)]
pub struct BenchmarkCommand {
    /// Human-readable name of the benchmark.
    pub name: String,
    /// Program and arguments; never empty.
    pub command: Vec<String>,
}

impl BenchmarkCommand {
    /// A command is well formed when its argv holds at least the program.
    pub open spec fn wf(self) -> bool {
        self.command.len() > 0
    }

    /// Builds a command, rejecting an empty argv.
    pub fn new(name: String, command: Vec<String>) -> (r: Result<BenchmarkCommand, ()>)
        ensures
            (r is Ok) <==> command.len() > 0,
            r matches Ok(c) ==> c.name@ == name@ && c.command@ == command@ && c.wf(),
    {
        if command.len() == 0 {
            Err(())
        } else {
            Ok(BenchmarkCommand { name, command })
        }
    }
}

/// The stable, reportable identity of one benchmark execution.
#[derive(Debug, Clone)]
pub struct NameAndUri {
    /// The benchmark's display name, as given.
    pub name: String,
    /// The derived identifier, `uri_spec` of the name and argv.
    pub uri: String,
}

/// The words of `parts` joined by single spaces.
pub open spec fn join_spaces(parts: Seq<Seq<char>>) -> Seq<char>
    decreases parts.len(),
{
    if parts.len() == 0 {
        Seq::empty()
    } else if parts.len() == 1 {
        parts[0]
    } else {
        join_spaces(parts.drop_last()) + " "@ + parts.last()
    }
}

/// The identifier derived for a command: the argv joined by spaces, then
/// `::`, then the benchmark name.
pub open spec fn uri_spec(name: Seq<char>, argv: Seq<Seq<char>>) -> Seq<char> {
    join_spaces(argv) + "::"@ + name
}

/// Derives the reportable name and identifier for one command.
pub fn generate_name_and_uri(name: &String, command: &Vec<String>) -> (r: NameAndUri)
    ensures
        r.name@ == name@,
        r.uri@ == uri_spec(name@, command.deep_view()),
{
    let ghost parts = command.deep_view();
    let mut uri = String::new();
    let mut i: usize = 0;
    while i < command.len()
        invariant
            0 <= i <= command.len(),
            parts == command.deep_view(),
            parts.len() == command@.len(),
            uri@ == join_spaces(parts.take(i as int)),
        decreases command.len() - i,
    {
        assert(parts[i as int] == command@[i as int]@);
        if i > 0 {
            uri.append(" ");
        }
        uri.append(command[i].as_str());
        proof {
            assert(parts.take(i + 1).drop_last() =~= parts.take(i as int));
            assert(parts.take(i + 1).last() == parts[i as int]);
            if i == 0 {
                assert(join_spaces(parts.take(1)) == parts[0]);
                assert(uri@ =~= Seq::<char>::empty() + parts[0]);
            }
        }
        i = i + 1;
    }
    assert(parts.take(parts.len() as int) =~= parts);
    uri.append("::");
    uri.append(name.as_str());
    NameAndUri { name: name.clone(), uri }
}

/// The identifier is deterministic: two derivations from equal inputs agree.
pub proof fn lemma_uri_deterministic(
    name1: Seq<char>,
    argv1: Seq<Seq<char>>,
    name2: Seq<char>,
    argv2: Seq<Seq<char>>,
)
    requires
        name1 == name2,
        argv1 == argv2,
    ensures
        uri_spec(name1, argv1) == uri_spec(name2, argv2),
{
}

} // verus!
