//! A stream that is either plain TCP or TLS, chosen at runtime. There is no dependency
//! on a TLS implementation: any stream type works as the TLS side.
use vstd::prelude::*;

verus! {

/// Stream, either plain TCP or TLS.
pub enum Stream<S, T> {
    /// Unencrypted socket stream.
    Plain(S),
    /// Encrypted socket stream.
    Tls(T),
}

} // verus!
