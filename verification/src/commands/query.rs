//! Looking an entry up. The command is reserved and does nothing yet.

use crate::error::{Error, ErrorView};
use vstd::prelude::*;

verus! {

/// What to look for. The option is accepted and not read.
#[derive(Debug)]
pub struct QueryOpts {
    pub url: Option<String>,
}

/// Always refuses: the command has no behaviour yet.
pub fn query(opts: QueryOpts) -> (result: Result<(), Error>)
    ensures
        result is Err,
        result->Err_0@ == ErrorView::Unimplemented,
{
    Err(Error::Unimplemented)
}

} // verus!
