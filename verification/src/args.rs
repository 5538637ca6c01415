//! Resolving the positional argument from the external argument list.

use vstd::prelude::*;

use crate::errors::ErrorView;
use crate::errors::PipelineError;

verus! {

/// Returns the first positional argument — the element after the program
/// name — or `ArgumentMissing` when the list holds none. Reads nothing
/// but the list itself.
pub fn resolve_argument(args: &Vec<String>) -> (r: Result<String, PipelineError>)
    ensures
        args@.len() >= 2 ==> (r matches Ok(s) && s@ == args@[1]@),
        args@.len() < 2 ==> (r matches Err(e) && e@ == ErrorView::ArgumentMissing),
{
    if args.len() >= 2 {
        Ok(args[1].clone())
    } else {
        Err(PipelineError::ArgumentMissing)
    }
}

} // verus!
