use vstd::prelude::*;

use cosmwasm_std::{Empty, Response};

verus! {

#[verifier::external_type_specification]
#[verifier::external_body]
pub struct ExEmpty(cosmwasm_std::Empty);

#[verifier::external_type_specification]
#[verifier::external_body]
#[verifier::reject_recursive_types(T)]
pub struct ExResponse<T>(cosmwasm_std::Response<T>);

/// The attributes that a response carries, as pairs of key and value, in the
/// order in which they were added.
pub uninterp spec fn response_attributes(response: Response<Empty>) -> Seq<(Seq<char>, Seq<char>)>;

/// How many messages a response asks the host to dispatch.
pub uninterp spec fn response_message_count(response: Response<Empty>) -> nat;

/// How many events a response carries besides its attributes.
pub uninterp spec fn response_event_count(response: Response<Empty>) -> nat;

/// The data bytes that a response carries, if it carries any.
pub uninterp spec fn response_data(response: Response<Empty>) -> Option<Seq<u8>>;

/// Whether `key` may name an attribute: keys that start with an underscore
/// are reserved.
pub open spec fn attribute_key_ok(key: Seq<char>) -> bool {
    key.len() == 0 || key[0] != '_'
}

/// Whether `response` carries exactly the attributes `attributes`, in that
/// order, and nothing else.
pub open spec fn carries_only(
    response: Response<Empty>,
    attributes: Seq<(Seq<char>, Seq<char>)>,
) -> bool {
    &&& response_attributes(response) == attributes
    &&& response_message_count(response) == 0
    &&& response_event_count(response) == 0
    &&& response_data(response) is None
}

/// Calls `cosmwasm_std::Response::new`. Trusted: the fresh response is that
/// type's default, which holds no attribute, no message, no event and no data.
#[verifier::external_body]
pub(crate) fn new_response() -> (response: Response<Empty>)
    ensures
        response_attributes(response) == Seq::<(Seq<char>, Seq<char>)>::empty(),
        response_message_count(response) == 0,
        response_event_count(response) == 0,
        response_data(response) is None,
{
    Response::new()
}

/// Calls `cosmwasm_std::Response::add_attribute`. Trusted: it appends the pair
/// of `key` and `value` behind the attributes already there and touches
/// nothing else. The outside function rejects a reserved key by panicking, so
/// such a key is left out.
#[verifier::external_body]
pub(crate) fn add_attribute(response: Response<Empty>, key: &str, value: &str) -> (res: Response<
    Empty,
>)
    requires
        attribute_key_ok(key@),
    ensures
        response_attributes(res) == response_attributes(response).push((key@, value@)),
        response_message_count(res) == response_message_count(response),
        response_event_count(res) == response_event_count(response),
        response_data(res) == response_data(response),
{
    response.add_attribute(key, value)
}

} // verus!
