//! The questions that are put to the user, and the answers.

use crate::keys::PublicKey;
use crate::model::Permission;
use vstd::prelude::*;

verus! {

/// May the client with this key do this?
pub struct RequestPermission {
    pub pk_openssh: String,
    pub action: String,
}

/// The answer for this time, and the decision for the times to come.
#[derive(Debug)]
pub struct ReplyPermission {
    pub now: bool,
    pub future: Permission,
}

/// What is the name of the client with this key?
pub struct RequestClientName {
    pub pk_openssh: String,
}

/// The client's name, or none where the user gave none.
#[derive(Debug)]
pub struct ReplyClientName {
    pub name: Option<String>,
}

/// Is this the key of this host?
pub struct RequestAcceptKey {
    pub host: String,
    pub key: PublicKey,
}

/// Whether the user accepts the key of a host.
#[derive(Debug)]
pub struct ReplyAcceptKey {
    pub accept: bool,
}

} // verus!
