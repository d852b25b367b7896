use vstd::prelude::*;

verus! {

/// Who sent a request. The identity is an opaque text: it is stored and
/// compared for equality, never parsed.
#[derive(Debug, Clone, PartialEq, Eq)]
pub struct MessageInfo {
    pub sender: String,
}

/// The request that creates the record.
#[derive(Debug, Clone, PartialEq, Eq)]
pub struct InstantiateMsg {
    pub message: String,
}

/// The requests that change the record.
#[derive(Debug, Clone, PartialEq, Eq)]
pub enum ExecuteMsg {
    /// Replace the message. With `sudo` set the write is owner-only; without
    /// it anybody may write.
    SetMessage { message: String, sudo: bool },
}

/// The requests that read the record.
#[derive(Debug, Clone, PartialEq, Eq)]
pub enum QueryMsg {
    /// Ask for the current message and who set it.
    GetMessage {},
}

/// The answer to [`QueryMsg::GetMessage`]. The owner is not part of it.
#[derive(Debug, Clone, PartialEq, Eq)]
pub struct GetMessageResponse {
    pub message: String,
    pub setter: String,
}

/// What a [`GetMessageResponse`] means: its two texts as character sequences.
pub ghost struct MessageView {
    pub message: Seq<char>,
    pub setter: Seq<char>,
}

impl View for GetMessageResponse {
    type V = MessageView;

    open spec fn view(&self) -> MessageView {
        MessageView { message: self.message@, setter: self.setter@ }
    }
}

} // verus!
