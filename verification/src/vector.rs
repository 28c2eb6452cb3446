//! The persistent vector that snapshots are built on.
//!
//! `im::Vector` is opaque to the verifier. What a vector holds is named by an
//! uninterpreted function for each element type in use, and every statement
//! about the vector's methods below is taken on trust from the `im` sources.

use im::Vector;
use vstd::prelude::*;

use crate::entities::{url_views, ContactView, MessageView};
use crate::state::{contact_state_views, message_state_views, ContactState, MessageState};

verus! {

/// `im::Vector`, declared so that it can stand in fields and signatures.
/// Nothing is known of what is inside a value but through the names below.
#[verifier::external_type_specification]
#[verifier::external_body]
#[verifier::reject_recursive_types(A)]
pub struct ExVector<A>(Vector<A>);

/// The relay URLs that a vector holds, front to back, each as its text.
pub uninterp spec fn url_items(v: Vector<String>) -> Seq<Seq<char>>;

/// The contacts that a vector holds, front to back.
pub uninterp spec fn contact_items(v: Vector<ContactState>) -> Seq<ContactView>;

/// The messages that a vector holds, front to back.
pub uninterp spec fn message_items(v: Vector<MessageState>) -> Seq<MessageView>;

/// `Vector::from(Vec<String>)`: collects the elements of the `Vec` by pushing
/// each to the back in turn, so the vector holds the same URLs in the same
/// order.
#[verifier::external_body]
pub(crate) fn urls_from_vec(urls: Vec<String>) -> (v: Vector<String>)
    ensures
        url_items(v) == url_views(urls@),
{
    Vector::from(urls)
}

/// `Vector::from(Vec<ContactState>)`: same elements, same order.
#[verifier::external_body]
pub(crate) fn contacts_from_vec(contacts: Vec<ContactState>) -> (v: Vector<ContactState>)
    ensures
        contact_items(v) == contact_state_views(contacts@),
{
    Vector::from(contacts)
}

/// `Vector::from(Vec<MessageState>)`: same elements, same order.
#[verifier::external_body]
pub(crate) fn messages_from_vec(messages: Vec<MessageState>) -> (v: Vector<MessageState>)
    ensures
        message_items(v) == message_state_views(messages@),
{
    Vector::from(messages)
}

/// `Vector::clone`: the copy holds what the vector holds. Large vectors share
/// their elements with the copy; a small one clones each element with
/// `MessageState::clone`, which is derived and copies the fields.
#[verifier::external_body]
pub(crate) fn clone_messages(v: &Vector<MessageState>) -> (copy: Vector<MessageState>)
    ensures
        message_items(copy) == message_items(*v),
{
    v.clone()
}

/// `Vector::push_back`: the value becomes the last element and the elements
/// already held keep their places.
#[verifier::external_body]
pub(crate) fn push_message(v: &mut Vector<MessageState>, message: MessageState)
    ensures
        message_items(*final(v)) == message_items(*old(v)).push(message@),
{
    v.push_back(message)
}

} // verus!
