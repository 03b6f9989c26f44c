//! Session state: the confirmation status of the identity/alias pairing with
//! the remote coordination service.

use vstd::prelude::*;

verus! {

/// Which handshake the endpoint is waiting on: registering a fresh alias, or
/// linking this device to an alias already registered remotely.
#[derive(Clone, Copy, Debug, PartialEq, Eq, Structural)]
pub enum HandshakeKind {
    Register,
    Link,
}

/// The linkage state of the bound identity.  `Confirmed` is terminal for the
/// process lifetime: the endpoint never downgrades it.
#[derive(Clone, Copy, Debug, PartialEq, Eq, Structural)]
pub enum SessionState {
    Unconfirmed,
    AwaitingConfirmation(HandshakeKind),
    Confirmed,
}

} // verus!
