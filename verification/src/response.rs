//! What a handled message answers: bank transfers to perform and attributes.
use vstd::prelude::*;

verus! {

/// A key-value pair of the event that the contract emits.
#[derive(Clone, Debug, PartialEq)]
pub struct Attribute {
    pub key: String,
    pub value: String,
}

/// A bank transfer of `amount` of the token `denom` to `to_address`,
/// sent without asking for a reply.
#[derive(Clone, Debug, PartialEq)]
pub struct BankSend {
    pub to_address: String,
    pub denom: String,
    pub amount: u128,
}

/// The answer to a handled message: transfers in the order they are
/// dispatched, and the attributes of the emitted event in order.
#[derive(Clone, Debug, PartialEq)]
pub struct Response {
    pub messages: Vec<BankSend>,
    pub attributes: Vec<Attribute>,
}

/// `a` is the attribute `key` = `value`.
pub open spec fn attribute_is(a: Attribute, key: Seq<char>, value: Seq<char>) -> bool {
    a.key@ == key && a.value@ == value
}

/// `m` sends `amount` of `denom` to `to`.
pub open spec fn sends(m: BankSend, to: Seq<char>, amount: int, denom: Seq<char>) -> bool {
    &&& m.to_address@ == to
    &&& m.amount == amount
    &&& m.denom@ == denom
}

/// An attribute made of `key` and `value`.
pub fn attribute(key: &str, value: String) -> (a: Attribute)
    ensures
        attribute_is(a, key@, value@),
{
    Attribute { key: String::from_str(key), value }
}

/// An empty response.
pub fn new_response() -> (r: Response)
    ensures
        r.messages@.len() == 0,
        r.attributes@.len() == 0,
{
    Response { messages: Vec::new(), attributes: Vec::new() }
}

} // verus!
