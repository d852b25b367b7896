use vstd::prelude::*;

use crate::contract::read_outcome;
use crate::error::ContractError;
use crate::msg::GetMessageResponse;
use crate::state::Store;

verus! {

/// Reads the record: its message and who set it last. Fails with `NotFound`
/// on an empty store. The owner is not given out.
pub fn get_message(store: &Store) -> (res: Result<GetMessageResponse, ContractError>)
    ensures
        match read_outcome(store@) {
            Ok(answer) => res is Ok && res->Ok_0@ == answer,
            Err(error) => res == Err::<GetMessageResponse, ContractError>(error),
        },
{
    match store.load() {
        Err(error) => Err(error),
        Ok(state) => Ok(GetMessageResponse { message: state.message, setter: state.setter }),
    }
}

} // verus!
