//! The model of a deployment target: a host reached over ssh.

use vstd::prelude::*;

verus! {

/// A deployment target. The address is the text of the target's ssh URL,
/// `username` is the user name that URL carries, and `identity` is the path
/// of the private key used to log in.
#[derive(Debug, Clone, PartialEq, Eq)]
pub struct Target {
    name: String,
    address: String,
    username: String,
    identity: String,
}

/// The mathematical value of a [`Target`].
pub struct TargetView {
    pub name: Seq<char>,
    pub address: Seq<char>,
    pub username: Seq<char>,
    pub identity: Seq<char>,
}

impl View for Target {
    type V = TargetView;

    closed spec fn view(&self) -> TargetView {
        TargetView {
            name: self.name@,
            address: self.address@,
            username: self.username@,
            identity: self.identity@,
        }
    }
}

impl Target {
    /// Builds a target from its name, the text of its URL, the user name of
    /// that URL and the path of its identity file.
    pub fn new(name: String, address: String, username: String, identity: String) -> (t: Target)
        ensures
            t@ == (TargetView {
                name: name@,
                address: address@,
                username: username@,
                identity: identity@,
            }),
    {
        Target { name, address, username, identity }
    }

    /// The name of the target.
    pub fn name(&self) -> (n: &String)
        ensures
            n@ == self@.name,
    {
        &self.name
    }

    /// The text of the target's URL.
    pub fn address(&self) -> (a: &String)
        ensures
            a@ == self@.address,
    {
        &self.address
    }

    /// The user name of the target's URL.
    pub fn username(&self) -> (u: &String)
        ensures
            u@ == self@.username,
    {
        &self.username
    }

    /// The path of the private key used to log in.
    pub fn identity(&self) -> (i: &String)
        ensures
            i@ == self@.identity,
    {
        &self.identity
    }
}

} // verus!
