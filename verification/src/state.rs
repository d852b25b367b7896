use vstd::prelude::*;

use crate::error::ContractError;

verus! {

/// The one record: a message, who wrote it last, and who owns it.
#[derive(Debug, PartialEq, Eq)]
pub struct State {
    pub message: String,
    pub setter: String,
    pub owner: String,
}

/// What a [`State`] means: its three texts as character sequences.
pub ghost struct StateView {
    pub message: Seq<char>,
    pub setter: Seq<char>,
    pub owner: Seq<char>,
}

impl View for State {
    type V = StateView;

    open spec fn view(&self) -> StateView {
        StateView { message: self.message@, setter: self.setter@, owner: self.owner@ }
    }
}

impl Clone for State {
    fn clone(&self) -> (res: State)
        ensures
            res@ == self@,
    {
        State {
            message: self.message.clone(),
            setter: self.setter.clone(),
            owner: self.owner.clone(),
        }
    }
}

/// The slot that holds the record: empty until the record is created, and
/// never emptied again.
#[derive(Debug)]
pub struct Store {
    record: Option<State>,
}

impl View for Store {
    type V = Option<StateView>;

    closed spec fn view(&self) -> Option<StateView> {
        match self.record {
            Some(state) => Some(state@),
            None => None,
        }
    }
}

impl Store {
    /// An empty slot.
    pub fn new() -> (store: Store)
        ensures
            store@ is None,
    {
        Store { record: None }
    }

    /// The record, or `NotFound` while the slot is empty.
    pub fn load(&self) -> (res: Result<State, ContractError>)
        ensures
            match self@ {
                Some(record) => res is Ok && res->Ok_0@ == record,
                None => res == Err::<State, ContractError>(ContractError::NotFound),
            },
    {
        match &self.record {
            Some(state) => Ok(state.clone()),
            None => Err(ContractError::NotFound),
        }
    }

    /// Puts `state` in the slot, whatever was there.
    pub fn save(&mut self, state: State)
        ensures
            final(self)@ == Some(state@),
    {
        self.record = Some(state);
    }

    /// Read, modify, write in one step. The record is handed to `action`; what
    /// `action` returns on success replaces it and is returned too. Where
    /// `action` fails, or the slot is empty, the slot stays as it was and the
    /// error is passed on.
    pub fn update<F>(&mut self, action: F) -> (res: Result<State, ContractError>) where
        F: FnOnce(State) -> Result<State, ContractError>,

        requires
            forall|state: State| old(self)@ == Some(state@) ==> action.requires((state,)),
        ensures
            old(self)@ is None ==> {
                &&& res == Err::<State, ContractError>(ContractError::NotFound)
                &&& final(self)@ is None
            },
            old(self)@ is Some ==> exists|state: State, out: Result<State, ContractError>|
                {
                    &&& old(self)@ == Some(state@)
                    &&& #[trigger] action.ensures((state,), out)
                    &&& match out {
                        Ok(next) => {
                            &&& res is Ok
                            &&& res->Ok_0@ == next@
                            &&& final(self)@ == Some(next@)
                        },
                        Err(error) => {
                            &&& res == Err::<State, ContractError>(error)
                            &&& final(self)@ == old(self)@
                        },
                    }
                },
    {
        match self.load() {
            Err(error) => Err(error),
            Ok(state) => {
                match action(state) {
                    Err(error) => Err(error),
                    Ok(next) => {
                        self.record = Some(next.clone());
                        Ok(next)
                    },
                }
            },
        }
    }
}

} // verus!
