//! The HTTP probe.

use vstd::prelude::*;

verus! {

/// The HTTP engine; its probe times the TCP connection, the TLS handshake
/// and the first byte of a request.
pub struct HttpEngine;

} // verus!
