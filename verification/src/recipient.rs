//! Recipients: from what a caller typed to the identifier the protocol uses.

use vstd::prelude::*;
use vstd::string::*;

verus! {

/// Characters that people write inside a phone number and that are not part
/// of it: the plus sign, the space and the hyphen.
pub open spec fn is_separator(c: char) -> bool {
    c == '+' || c == ' ' || c == '-'
}

/// The predicate that keeps every character but the separators.
pub open spec fn not_separator() -> spec_fn(char) -> bool {
    |c: char| !is_separator(c)
}

/// A contact with its separators removed, the other characters in order.
pub open spec fn normalized_contact(contact: Seq<char>) -> Seq<char> {
    contact.filter(not_separator())
}

/// The server part of every identifier of a person's account.
pub open spec fn user_server() -> Seq<char> {
    "s.whatsapp.net"@
}

/// The identifier under which the protocol knows a recipient.
#[derive(Clone, Debug, PartialEq, Eq)]
pub struct RecipientId {
    pub user: String,
    pub server: String,
}

/// The mathematical value of a [`RecipientId`].
pub struct RecipientIdView {
    pub user: Seq<char>,
    pub server: Seq<char>,
}

impl View for RecipientId {
    type V = RecipientIdView;

    open spec fn view(&self) -> RecipientIdView {
        RecipientIdView { user: self.user@, server: self.server@ }
    }
}

/// The identifier that a contact, as typed, stands for.
pub open spec fn recipient_of(contact: Seq<char>) -> RecipientIdView {
    RecipientIdView { user: normalized_contact(contact), server: user_server() }
}

/// Filtering one character more either appends it or changes nothing.
proof fn lemma_filter_next(text: Seq<char>, i: int, keep: spec_fn(char) -> bool)
    requires
        0 <= i < text.len(),
    ensures
        text.take(i + 1).filter(keep) == if keep(text[i]) {
            text.take(i).filter(keep).push(text[i])
        } else {
            text.take(i).filter(keep)
        },
{
    reveal(Seq::filter);
    assert(text.take(i + 1).drop_last() =~= text.take(i));
}

/// Removes the separators from a contact.
pub fn normalize_contact(contact: &str) -> (digits: String)
    ensures
        digits@ == normalized_contact(contact@),
{
    let mut digits = String::new();
    proof {
        reveal(Seq::filter);
    }
    for c in it: contact.chars()
        invariant
            it.seq() == contact@,
            digits@ == contact@.take(it.index()).filter(not_separator()),
    {
        proof {
            lemma_filter_next(contact@, it.index(), not_separator());
        }
        if c != '+' && c != ' ' && c != '-' {
            digits.push(c);
        }
    }
    proof {
        assert(contact@.take(contact@.len() as int) =~= contact@);
    }
    digits
}

/// Builds the identifier of the person a contact stands for.
pub fn recipient_id(contact: &str) -> (id: RecipientId)
    ensures
        id@ == recipient_of(contact@),
{
    RecipientId { user: normalize_contact(contact), server: "s.whatsapp.net".to_string() }
}

} // verus!
