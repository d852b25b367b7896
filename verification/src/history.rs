use vstd::prelude::*;

use crate::contract::{created, read_outcome, store_after_write, write_outcome};
use crate::error::ContractError;
use crate::msg::MessageView;
use crate::state::StateView;

verus! {

/// One attempted write: who sends it, what it says, and whether it asks for
/// the owner-only rule.
pub ghost struct Write {
    pub sender: Seq<char>,
    pub message: Seq<char>,
    pub sudo: bool,
}

/// The store after `writes` have been attempted on `store`, first to last.
/// A refused write leaves no trace.
pub open spec fn replay(store: Option<StateView>, writes: Seq<Write>) -> Option<StateView>
    decreases writes.len(),
{
    if writes.len() == 0 {
        store
    } else {
        let last = writes.last();
        store_after_write(
            replay(store, writes.drop_last()),
            last.sender,
            last.message,
            last.sudo,
        )
    }
}

/// Reading straight after creation gives back the creation's message, with
/// the creator as setter.
pub proof fn lemma_read_after_create(sender: Seq<char>, message: Seq<char>)
    ensures
        read_outcome(Some(created(sender, message))) == Ok::<MessageView, ContractError>(
            MessageView { message, setter: sender },
        ),
{
}

/// No sequence of writes, refused or not, empties the store or changes the
/// record's owner.
pub proof fn lemma_owner_never_changes(record: StateView, writes: Seq<Write>)
    ensures
        replay(Some(record), writes) is Some,
        replay(Some(record), writes)->Some_0.owner == record.owner,
    decreases writes.len(),
{
    if writes.len() > 0 {
        lemma_owner_never_changes(record, writes.drop_last());
    }
}

/// After creation and any sequence of writes, an owner-only write is accepted
/// from the creator and from nobody else.
pub proof fn lemma_sudo_write_is_the_creators(
    creator: Seq<char>,
    first: Seq<char>,
    writes: Seq<Write>,
    sender: Seq<char>,
    message: Seq<char>,
)
    ensures
        write_outcome(replay(Some(created(creator, first)), writes), sender, message, true) is Ok
            <==> sender == creator,
        sender != creator ==> write_outcome(
            replay(Some(created(creator, first)), writes),
            sender,
            message,
            true,
        ) == Err::<StateView, ContractError>(
            ContractError::Unauthorized,
        ),
{
    lemma_owner_never_changes(created(creator, first), writes);
}

/// A write without the owner-only rule is accepted from anybody, and a read
/// after it gives back its message with its sender as setter.
pub proof fn lemma_plain_write_is_anybodys(
    owner: Seq<char>,
    first: Seq<char>,
    sender: Seq<char>,
    message: Seq<char>,
)
    ensures
        write_outcome(Some(created(owner, first)), sender, message, false) is Ok,
        read_outcome(store_after_write(Some(created(owner, first)), sender, message, false))
            == Ok::<MessageView, ContractError>(
            MessageView { message, setter: sender },
        ),
{
}

/// After an accepted write, whatever the store's history, the record holds
/// that write's message and sender.
pub proof fn lemma_last_write_wins(store: Option<StateView>, write: Write)
    requires
        write_outcome(store, write.sender, write.message, write.sudo) is Ok,
    ensures
        read_outcome(store_after_write(store, write.sender, write.message, write.sudo))
            == Ok::<MessageView, ContractError>(
            MessageView { message: write.message, setter: write.sender },
        ),
{
}

/// A refused write changes nothing that a read could show.
pub proof fn lemma_refused_write_leaves_store(store: Option<StateView>, write: Write)
    requires
        write_outcome(store, write.sender, write.message, write.sudo) is Err,
    ensures
        store_after_write(store, write.sender, write.message, write.sudo) == store,
{
}

} // verus!
