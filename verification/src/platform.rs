//! What a build was made for, and the environment variables a process is given.

use vstd::prelude::*;

verus! {

/// The operating system a build is made for.
#[derive(Debug, Clone, Copy, PartialEq, Eq, Structural)]
pub enum Os {
    Linux,
    MacOs,
    Windows,
    Ios,
    Android,
    Other,
}

/// What a build was made for: its operating system, and whether it carries debug assertions.
#[derive(Debug, Clone, Copy, PartialEq, Eq, Structural)]
pub struct Target {
    pub os: Os,
    pub debug_assertions: bool,
}

/// An environment variable and the value it is to be given.
#[derive(Debug, PartialEq, Eq)]
pub struct EnvVar {
    pub key: String,
    pub value: String,
}

impl View for EnvVar {
    type V = (Seq<char>, Seq<char>);

    open spec fn view(&self) -> (Seq<char>, Seq<char>) {
        (self.key@, self.value@)
    }
}

/// The keys and values of a list of variables.
pub open spec fn assignments(vars: Seq<EnvVar>) -> Seq<(Seq<char>, Seq<char>)> {
    vars.map_values(|var: EnvVar| var@)
}

/// An environment once variables have been set in it, one after the other.
pub open spec fn environment_after(
    env: Map<Seq<char>, Seq<char>>,
    assignments: Seq<(Seq<char>, Seq<char>)>,
) -> Map<Seq<char>, Seq<char>>
    decreases assignments.len(),
{
    if assignments.len() == 0 {
        env
    } else {
        environment_after(env, assignments.drop_last()).insert(
            assignments.last().0,
            assignments.last().1,
        )
    }
}

/// Every variable is given its own value, in the order of the list.
pub proof fn variables_keep_their_values(vars: Seq<EnvVar>)
    ensures
        assignments(vars).len() == vars.len(),
        forall|i: int|
            0 <= i < vars.len() ==> (#[trigger] assignments(vars)[i]).0 == vars[i].key@
                && assignments(vars)[i].1 == vars[i].value@,
{
}

} // verus!
