//! The values that the store holds and the settings it is built from.

use vstd::prelude::*;

verus! {

/// The secret handed to the wallet engine for key derivation: the bytes of
/// the passphrase, fixed when the store is built.
pub struct Secret {
    pub passphrase: Vec<u8>,
}

impl View for Secret {
    type V = Seq<u8>;

    open spec fn view(&self) -> Seq<u8> {
        self.passphrase@
    }
}

impl Clone for Secret {
    fn clone(&self) -> (res: Self)
        ensures
            res@ == self@,
    {
        Secret { passphrase: self.passphrase.clone() }
    }
}

/// A snapshot of the wallet's runtime state. The store never looks inside
/// it: the snapshot is carried as the bytes that the engine encoded it to.
pub struct State {
    pub data: Vec<u8>,
}

impl View for State {
    type V = Seq<u8>;

    open spec fn view(&self) -> Seq<u8> {
        self.data@
    }
}

impl Clone for State {
    fn clone(&self) -> (res: Self)
        ensures
            res@ == self@,
    {
        State { data: self.data.clone() }
    }
}

impl Default for State {
    /// The state of a wallet that has not run yet: an empty snapshot.
    fn default() -> (res: Self)
        ensures
            res@ == Seq::<u8>::empty(),
    {
        State { data: Vec::new() }
    }
}

/// What the store reads from the application's configuration.
pub struct Settings {
    /// The passphrase, where the user gave one.
    pub password: Option<String>,
}

impl Settings {
    /// The passphrase as the store's contracts see it: its characters, if
    /// there is one.
    pub open spec fn passphrase(&self) -> Option<Seq<char>> {
        match self.password {
            Some(p) => Some(p@),
            None => None,
        }
    }
}

} // verus!
