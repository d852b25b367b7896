use vstd::prelude::*;

use cosmwasm_std::{Empty, Response};

use crate::error::ContractError;
use crate::msg::{ExecuteMsg, GetMessageResponse, InstantiateMsg, MessageInfo, MessageView, QueryMsg};
use crate::response::{add_attribute, carries_only, new_response, response_attributes};
use crate::state::{State, StateView, Store};

pub mod execute;
pub mod query;

verus! {

/// The rule for writes: with `sudo` only the owner may write, without it
/// anybody may.
pub open spec fn may_write(owner: Seq<char>, sender: Seq<char>, sudo: bool) -> bool {
    !sudo || sender == owner
}

/// The record that `sender` creates with `message`: `sender` owns it and is
/// its first setter.
pub open spec fn created(sender: Seq<char>, message: Seq<char>) -> StateView {
    StateView { message, setter: sender, owner: sender }
}

/// `record` after `sender` has written `message`: the owner stays.
pub open spec fn rewritten(record: StateView, sender: Seq<char>, message: Seq<char>) -> StateView {
    StateView { message, setter: sender, owner: record.owner }
}

/// What a write decides on a store: the new record, or why there is none.
pub open spec fn write_outcome(
    store: Option<StateView>,
    sender: Seq<char>,
    message: Seq<char>,
    sudo: bool,
) -> Result<StateView, ContractError> {
    match store {
        None => Err(ContractError::NotFound),
        Some(record) => if may_write(record.owner, sender, sudo) {
            Ok(rewritten(record, sender, message))
        } else {
            Err(ContractError::Unauthorized)
        },
    }
}

/// The store that a write leaves behind: the new record where the write
/// succeeds, the store as it was where it fails.
pub open spec fn store_after_write(
    store: Option<StateView>,
    sender: Seq<char>,
    message: Seq<char>,
    sudo: bool,
) -> Option<StateView> {
    match write_outcome(store, sender, message, sudo) {
        Ok(next) => Some(next),
        Err(_) => store,
    }
}

/// What a read answers on a store: message and setter, never the owner.
pub open spec fn read_outcome(store: Option<StateView>) -> Result<MessageView, ContractError> {
    match store {
        None => Err(ContractError::NotFound),
        Some(record) => Ok(MessageView { message: record.message, setter: record.setter }),
    }
}

/// The attributes that announce a creation.
pub open spec fn instantiate_attributes(sender: Seq<char>, message: Seq<char>) -> Seq<
    (Seq<char>, Seq<char>),
> {
    seq![("method"@, "instantiate"@), ("owner"@, sender), ("message"@, message)]
}

/// The attributes that announce a write.
pub open spec fn set_message_attributes() -> Seq<(Seq<char>, Seq<char>)> {
    seq![("action"@, "set_message"@)]
}

/// Creates the record: the sender becomes its owner and its first setter, and
/// `msg.message` its message. Whatever the store held before is replaced. The
/// response names the operation, the owner and the message.
pub fn instantiate(store: &mut Store, info: MessageInfo, msg: InstantiateMsg) -> (res: Result<
    Response<Empty>,
    ContractError,
>)
    ensures
        final(store)@ == Some(created(info.sender@, msg.message@)),
        res is Ok,
        carries_only(res->Ok_0, instantiate_attributes(info.sender@, msg.message@)),
{
    let state = State {
        message: msg.message.clone(),
        setter: info.sender.clone(),
        owner: info.sender.clone(),
    };
    store.save(state);
    proof {
        reveal_strlit("method");
        reveal_strlit("owner");
        reveal_strlit("message");
    }
    let response = add_attribute(new_response(), "method", "instantiate");
    let response = add_attribute(response, "owner", info.sender.as_str());
    let response = add_attribute(response, "message", msg.message.as_str());
    assert(response_attributes(response) =~= instantiate_attributes(
        info.sender@,
        msg.message@,
    ));
    Ok(response)
}

/// Carries out a request that changes the record. See
/// [`execute::set_message`].
pub fn execute(store: &mut Store, info: MessageInfo, msg: ExecuteMsg) -> (res: Result<
    Response<Empty>,
    ContractError,
>)
    ensures
        final(store)@ == store_after_write(
            old(store)@,
            info.sender@,
            msg->message@,
            msg->sudo,
        ),
        match write_outcome(old(store)@, info.sender@, msg->message@, msg->sudo) {
            Ok(_) => res is Ok && carries_only(res->Ok_0, set_message_attributes()),
            Err(error) => res == Err::<Response<Empty>, ContractError>(error),
        },
{
    match msg {
        ExecuteMsg::SetMessage { message, sudo } => execute::set_message(store, info, message, sudo),
    }
}

/// Answers a request that reads the record. See [`query::get_message`].
pub fn query(store: &Store, msg: QueryMsg) -> (res: Result<GetMessageResponse, ContractError>)
    ensures
        match read_outcome(store@) {
            Ok(answer) => res is Ok && res->Ok_0@ == answer,
            Err(error) => res == Err::<GetMessageResponse, ContractError>(error),
        },
{
    match msg {
        QueryMsg::GetMessage {  } => query::get_message(store),
    }
}

} // verus!
