//! Running the benchmark script against whatever is installed.

use crate::command::{Invocation, InvocationView};
use crate::text::texts;
use vstd::prelude::*;
use vstd::string::*;

verus! {

/// The benchmark script, without arguments, found from the directory that the
/// service runs in.
pub open spec fn benchmark_step() -> InvocationView {
    InvocationView {
        program: "./scripts/bench-solver.sh"@,
        args: Seq::<Seq<char>>::empty(),
        dir: None,
    }
}

/// The call that runs the benchmark. It measures the tool that is installed
/// at the time, whichever sync put it there: the order is the caller's duty.
pub fn benchmark() -> (step: Invocation)
    ensures
        step@ == benchmark_step(),
{
    let args: Vec<String> = Vec::new();
    assert(texts(args@) =~= Seq::<Seq<char>>::empty());
    Invocation { program: String::from_str("./scripts/bench-solver.sh"), args, dir: None }
}

} // verus!
