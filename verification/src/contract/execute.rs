use vstd::prelude::*;

use cosmwasm_std::{Empty, Response};

use crate::contract::{may_write, rewritten, set_message_attributes, store_after_write, write_outcome};
use crate::error::ContractError;
use crate::msg::MessageInfo;
use crate::response::{add_attribute, carries_only, new_response, response_attributes};
use crate::state::{State, Store};

verus! {

/// Whether `out` is what the write rule makes of `state`: the rewritten
/// record where the sender may write, `Unauthorized` where not.
spec fn decided(
    state: State,
    sender: Seq<char>,
    message: Seq<char>,
    sudo: bool,
    out: Result<State, ContractError>,
) -> bool {
    if may_write(state@.owner, sender, sudo) {
        out is Ok && out->Ok_0@ == rewritten(state@, sender, message)
    } else {
        out == Err::<State, ContractError>(ContractError::Unauthorized)
    }
}

/// Writes `message` into the record and makes the sender its setter. With
/// `sudo` the write is refused as `Unauthorized` unless the sender owns the
/// record; without `sudo` anybody may write. On an empty store the write
/// fails with `NotFound`. A failed write leaves the store as it was; the
/// owner never changes.
pub fn set_message(store: &mut Store, info: MessageInfo, message: String, sudo: bool) -> (res:
    Result<Response<Empty>, ContractError>)
    ensures
        final(store)@ == store_after_write(old(store)@, info.sender@, message@, sudo),
        match write_outcome(old(store)@, info.sender@, message@, sudo) {
            Ok(_) => res is Ok && carries_only(res->Ok_0, set_message_attributes()),
            Err(error) => res == Err::<Response<Empty>, ContractError>(error),
        },
{
    let ghost sender = info.sender@;
    let ghost text = message@;
    let action = |state: State| -> (out: Result<State, ContractError>)
        ensures
            decided(state, sender, text, sudo, out),
        {
            if sudo && !(info.sender == state.owner) {
                Err(ContractError::Unauthorized)
            } else {
                Ok(State { message: message, setter: info.sender, owner: state.owner })
            }
        };
    let updated = store.update(action);
    match updated {
        Err(error) => Err(error),
        Ok(_) => {
            proof {
                reveal_strlit("action");
            }
            let response = add_attribute(new_response(), "action", "set_message");
            assert(response_attributes(response) =~= set_message_attributes());
            Ok(response)
        },
    }
}

} // verus!
