//! Marker types for how identity claims reach a request handler.

use vstd::prelude::*;

verus! {

/// Claims are taken from the request's session. The session store itself is
/// the transport layer's concern; handlers only name this extractor.
pub struct FromSession;

} // verus!
