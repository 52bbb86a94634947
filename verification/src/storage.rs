//! The store itself: a secret fixed at construction and a state snapshot
//! that each write replaces.

use vstd::prelude::*;
use vstd::slice::slice_to_vec;
use crate::model::StoreModel;
use crate::types::{Secret, Settings, State};

verus! {

/// What a wallet engine needs from the place that keeps its secret and its
/// state. The engine is written against this trait, so that another backend
/// can take the place of [`Storage`].
pub trait WalletBackend {
    /// What the backend holds.
    spec fn model(&self) -> StoreModel;

    /// A copy of the secret.
    fn get_secret(&self) -> (secret: Secret)
        ensures
            secret@ == self.model().secret,
    ;

    /// A copy of the current state.
    fn get_state(&self) -> (state: State)
        ensures
            state@ == self.model().state,
    ;

    /// Replaces the state as a whole.
    fn set_state(&mut self, state: State)
        ensures
            final(self).model() == old(self).model().write(state@),
    ;
}

/// The in-memory backend.
pub struct Storage {
    pub secret: Secret,
    pub state: State,
}

impl View for Storage {
    type V = StoreModel;

    open spec fn view(&self) -> StoreModel {
        StoreModel { secret: self.secret@, state: self.state@ }
    }
}

impl Storage {
    /// Builds the store for a configuration: the secret is the UTF-8
    /// encoding of the passphrase (no bytes where there is none), the state
    /// is the default one.
    pub fn new(settings: &Settings) -> (store: Self)
        ensures
            store@ == StoreModel::initial(settings.passphrase()),
    {
        let passphrase: Vec<u8> = match &settings.password {
            Some(p) => slice_to_vec(p.as_str().as_bytes()),
            None => Vec::new(),
        };
        proof {
            crate::model::lemma_absent_passphrase_is_empty();
        }
        let secret = Secret { passphrase };
        let state = State::default();
        Storage { secret, state }
    }
}

impl WalletBackend for Storage {
    open spec fn model(&self) -> StoreModel {
        self@
    }

    fn get_secret(&self) -> (secret: Secret) {
        self.secret.clone()
    }

    fn get_state(&self) -> (state: State) {
        self.state.clone()
    }

    fn set_state(&mut self, state: State) {
        self.state = state;
    }
}

} // verus!
