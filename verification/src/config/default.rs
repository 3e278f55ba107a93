//! Default values for some configuration options.

use vstd::prelude::*;
use vstd::string::StringExecFns;

verus! {

/// A pattern without a URI matches every request.
pub fn uri() -> (uri: String)
    ensures
        uri@ == "/"@,
{
    String::from_str("/")
}

/// Connections that a server accepts at the same time unless told otherwise.
pub fn max_connections() -> (limit: usize)
    ensures
        limit == 1024,
{
    1024
}

} // verus!
