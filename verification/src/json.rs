//! JSON objects as text: which members an object has, in which order, and
//! how they are written down. Strings, keys among them, are quoted by
//! serde_json.

use crate::number::is_json_number;
use vstd::prelude::*;

verus! {

/// The members of an object in the order in which they are written: each a
/// key and the text of its value.
pub type Members = Seq<(Seq<char>, Seq<char>)>;

/// `text` as a JSON string, quotes and escapes included, as serde_json
/// writes it.
pub uninterp spec fn json_literal(text: Seq<char>) -> Seq<char>;

/// The characters of a string that may be missing.
pub open spec fn text_view(text: Option<String>) -> Option<Seq<char>> {
    match text {
        Some(text) => Some(text@),
        None => None,
    }
}

/// Whether `text` stands between two quotes.
pub open spec fn is_quoted(text: Seq<char>) -> bool {
    text.len() >= 2 && text.first() == '"' && text.last() == '"'
}

/// Whether `text` stands between two braces.
pub open spec fn is_braced(text: Seq<char>) -> bool {
    text.len() >= 2 && text.first() == '{' && text.last() == '}'
}

/// Whether `text` has the looks of a number, of a string or of an object:
/// what `null` has not.
pub open spec fn is_value_text(text: Seq<char>) -> bool {
    is_json_number(text) || is_quoted(text) || is_braced(text)
}

/// Whether the value of each member is a number, a string or an object.
pub open spec fn members_are_values(members: Members) -> bool {
    forall|i: int| 0 <= i < members.len() ==> is_value_text((#[trigger] members[i]).1)
}

/// One member: the key as a string, a colon, the value.
pub open spec fn member_text(key: Seq<char>, value: Seq<char>) -> Seq<char> {
    json_literal(key) + seq![':'] + value
}

/// The members one after the other, with a comma between neighbours.
pub open spec fn members_text(members: Members) -> Seq<char>
    decreases members.len(),
{
    if members.len() == 0 {
        Seq::empty()
    } else if members.len() == 1 {
        member_text(members[0].0, members[0].1)
    } else {
        members_text(members.drop_last()) + seq![','] + member_text(
            members.last().0,
            members.last().1,
        )
    }
}

/// The object with these members: the members between braces.
pub open spec fn object_text(members: Members) -> Seq<char> {
    seq!['{'] + members_text(members) + seq!['}']
}

/// Whether one of the members has the key `key`.
pub open spec fn has_key(members: Members, key: Seq<char>) -> bool {
    exists|i: int| 0 <= i < members.len() && (#[trigger] members[i]).0 == key
}

/// `members` with one more member, if there is a value for it. A member
/// without a value is left out.
pub open spec fn with_member(members: Members, key: Seq<char>, value: Option<Seq<char>>) -> Members {
    match value {
        Some(text) => members.push((key, text)),
        None => members,
    }
}

/// One more member whose value is a number, a string or an object, or no
/// more member, leaves members whose values are all such.
pub proof fn one_more_value(members: Members, key: Seq<char>, value: Option<Seq<char>>)
    requires
        members_are_values(members),
        value matches Some(text) ==> is_value_text(text),
    ensures
        members_are_values(with_member(members, key, value)),
{
    let after = with_member(members, key, value);
    assert forall|i: int| 0 <= i < after.len() implies is_value_text((#[trigger] after[i]).1) by {
        if i < members.len() {
            assert(after[i] == members[i]);
        }
    }
}

/// `serde_json::Error`, the refusal of serde_json, of which nothing is
/// known here.
#[verifier::external_type_specification]
#[verifier::external_body]
pub struct ExJsonError(serde_json::Error);

/// Calls `serde_json::to_string` on a string slice.
///
/// Trusted: serde_json refuses no string slice, since it writes into a
/// vector of its own; what it writes is a function of the slice's
/// characters, named [`json_literal`], and stands between two quotes.
#[verifier::external_body]
pub(crate) fn quote(text: &str) -> (r: Result<String, serde_json::Error>)
    ensures
        r is Ok,
        r matches Ok(literal) ==> literal@ == json_literal(text@),
        r matches Ok(literal) ==> is_quoted(literal@),
{
    serde_json::to_string(text)
}

/// `text` as a JSON string.
pub fn string_json(text: &str) -> (r: String)
    ensures
        r@ == json_literal(text@),
        is_quoted(r@),
{
    match quote(text) {
        Ok(literal) => literal,
        Err(_) => String::new(),
    }
}

/// An object that is being written, member by member.
pub struct ObjectWriter {
    text: String,
    first: bool,
    members: Ghost<Members>,
}

impl ObjectWriter {
    #[verifier::type_invariant]
    spec fn well_formed(self) -> bool {
        &&& self.text@ == seq!['{'] + members_text(self.members@)
        &&& self.first <==> self.members@.len() == 0
    }

    /// The members written so far.
    pub closed spec fn members(self) -> Members {
        self.members@
    }

    /// An object without members.
    pub fn new() -> (writer: ObjectWriter)
        ensures
            writer.members() == Members::empty(),
    {
        let text = String::from_str("{");
        proof {
            reveal_strlit("{");
            assert(text@ == seq!['{'] + members_text(Members::empty()));
        }
        ObjectWriter { text, first: true, members: Ghost(Seq::empty()) }
    }

    /// The object with one more member, whose value is written as the text
    /// `value`.
    pub fn member(self, key: &str, value: &str) -> (writer: ObjectWriter)
        ensures
            writer.members() == self.members().push((key@, value@)),
    {
        proof {
            use_type_invariant(&self);
        }
        let ghost before = self.members@;
        let ghost after = before.push((key@, value@));
        let mut text = self.text;
        if !self.first {
            text.append(",");
        }
        text.append(string_json(key).as_str());
        text.append(":");
        text.append(value);
        proof {
            reveal_strlit(",");
            reveal_strlit(":");
            assert(after.drop_last() == before);
            assert(text@ == seq!['{'] + members_text(after));
        }
        ObjectWriter { text, first: false, members: Ghost(after) }
    }

    /// The object with one more member if there is a value for it: a member
    /// without a value is left out of the object.
    pub fn optional_member(self, key: &str, value: Option<String>) -> (writer: ObjectWriter)
        ensures
            writer.members() == with_member(self.members(), key@, text_view(value)),
    {
        match value {
            Some(text) => self.member(key, text.as_str()),
            None => self,
        }
    }

    /// The object as text.
    pub fn finish(self) -> (text: String)
        ensures
            text@ == object_text(self.members()),
            is_braced(text@),
    {
        proof {
            use_type_invariant(&self);
        }
        let mut text = self.text;
        text.append("}");
        proof {
            reveal_strlit("}");
        }
        text
    }
}

} // verus!
