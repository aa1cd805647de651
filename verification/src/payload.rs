//! The message payload: the optional fields accepted by the receiving
//! webhook, and its serialization to the compact JSON wire form.

use crate::error::MMRSError;
use crate::json::has_key;
use crate::json::joined;
use crate::json::lemma_has_key_concat;
use crate::json::pair_members;
use crate::json::render_object;
use vstd::prelude::*;

verus! {

/// One outbound notification. Every field is optional and independently
/// assignable; an unset field is omitted entirely from the serialized
/// form. The field `message_type` is serialized under the wire key
/// `type`, the name the receiving service expects.
pub struct MMBody {
    pub text: Option<String>,
    pub channel: Option<String>,
    pub username: Option<String>,
    pub icon_url: Option<String>,
    pub icon_emoji: Option<String>,
    pub attachments: Option<String>,
    pub message_type: Option<String>,
    pub props: Option<String>,
}

/// The member a single field contributes to the serialized object:
/// nothing when unset, its wire key and value when set.
pub open spec fn opt_member(key: Seq<char>, field: Option<String>) -> Seq<(Seq<char>, Seq<char>)> {
    match field {
        Option::Some(value) => seq![(key, value@)],
        Option::None => Seq::empty(),
    }
}

/// The members of the serialized object: the set fields, in declaration
/// order, under their wire keys.
pub open spec fn entries(b: MMBody) -> Seq<(Seq<char>, Seq<char>)> {
    opt_member("text"@, b.text) + opt_member("channel"@, b.channel) + opt_member(
        "username"@,
        b.username,
    ) + opt_member("icon_url"@, b.icon_url) + opt_member("icon_emoji"@, b.icon_emoji) + opt_member(
        "attachments"@,
        b.attachments,
    ) + opt_member("type"@, b.message_type) + opt_member("props"@, b.props)
}

/// The exact serialized form of a payload: a compact JSON object holding
/// precisely the set fields.
pub open spec fn json_of(b: MMBody) -> Seq<char> {
    seq!['{'] + joined(entries(b)) + seq!['}']
}

impl MMBody {
    /// A fresh payload with every field unset.
    pub fn new() -> (b: MMBody)
        ensures
            b.text is None,
            b.channel is None,
            b.username is None,
            b.icon_url is None,
            b.icon_emoji is None,
            b.attachments is None,
            b.message_type is None,
            b.props is None,
    {
        MMBody {
            text: None,
            channel: None,
            username: None,
            icon_url: None,
            icon_emoji: None,
            attachments: None,
            message_type: None,
            props: None,
        }
    }

    /// Serializes the payload, consuming it. The result is always the
    /// compact JSON object `json_of(self)`: exactly the set fields, in
    /// declaration order, under their wire keys, with escaped values and
    /// no whitespace. String fields always serialize, so no
    /// `BadJSONData` outcome arises here; the `Result` stands for the
    /// closed failure taxonomy of the library.
    pub fn to_json(self) -> (r: Result<String, MMRSError>)
        ensures
            r is Ok,
            r->Ok_0@ == json_of(self),
    {
        let ghost orig = self;
        let MMBody {
            text,
            channel,
            username,
            icon_url,
            icon_emoji,
            attachments,
            message_type,
            props,
        } = self;
        let mut pairs: Vec<(String, String)> = Vec::new();
        push_field(&mut pairs, "text", text);
        push_field(&mut pairs, "channel", channel);
        push_field(&mut pairs, "username", username);
        push_field(&mut pairs, "icon_url", icon_url);
        push_field(&mut pairs, "icon_emoji", icon_emoji);
        push_field(&mut pairs, "attachments", attachments);
        push_field(&mut pairs, "type", message_type);
        push_field(&mut pairs, "props", props);
        proof {
            assert(pair_members(Seq::<(String, String)>::empty())
                =~= Seq::<(Seq<char>, Seq<char>)>::empty());
            assert(Seq::<(Seq<char>, Seq<char>)>::empty() + opt_member("text"@, orig.text)
                =~= opt_member("text"@, orig.text));
            assert(pair_members(pairs@) == entries(orig));
        }
        let body = render_object(&pairs);
        proof {
            assert(body@ == json_of(orig));
        }
        Ok(body)
    }
}

/// Appends the member a single field contributes: nothing when the field
/// is unset, its key and value when set.
fn push_field(pairs: &mut Vec<(String, String)>, key: &str, field: Option<String>)
    ensures
        pair_members(final(pairs)@) == pair_members(old(pairs)@) + opt_member(key@, field),
{
    if let Some(value) = field {
        let owned_key = key.to_owned();
        pairs.push((owned_key, value));
        proof {
            assert(pair_members(pairs@) =~= pair_members(old(pairs)@) + opt_member(key@, field));
        }
    } else {
        proof {
            assert(pair_members(pairs@) =~= pair_members(old(pairs)@) + opt_member(key@, field));
        }
    }
}

/// A payload with every field unset serializes to the empty JSON object.
pub proof fn lemma_unset_payload_empty_object(b: MMBody)
    requires
        b.text is None,
        b.channel is None,
        b.username is None,
        b.icon_url is None,
        b.icon_emoji is None,
        b.attachments is None,
        b.message_type is None,
        b.props is None,
    ensures
        json_of(b) == "{}"@,
{
    reveal_strlit("{}");
    assert(entries(b) =~= Seq::<(Seq<char>, Seq<char>)>::empty());
    assert(json_of(b) =~= "{}"@);
}

/// Setting a field and reading it back yields exactly the value written,
/// for every field independently.
pub proof fn lemma_field_round_trip(b: MMBody, v: Option<String>)
    ensures
        (MMBody { text: v, ..b }).text == v,
        (MMBody { channel: v, ..b }).channel == v,
        (MMBody { username: v, ..b }).username == v,
        (MMBody { icon_url: v, ..b }).icon_url == v,
        (MMBody { icon_emoji: v, ..b }).icon_emoji == v,
        (MMBody { attachments: v, ..b }).attachments == v,
        (MMBody { message_type: v, ..b }).message_type == v,
        (MMBody { props: v, ..b }).props == v,
{
}

/// A member list built from a single field carries a key exactly when the
/// field is set and the key is the field's own.
proof fn lemma_opt_member_key(key: Seq<char>, field: Option<String>, k: Seq<char>)
    ensures
        has_key(opt_member(key, field), k) <==> (field is Some && k == key),
{
    if field is Some && k == key {
        assert(opt_member(key, field)[0].0 == k);
    }
}

/// Which keys the serialized members of a payload can carry: each set
/// field contributes its wire key and an unset field contributes nothing.
proof fn lemma_entries_key(b: MMBody, k: Seq<char>)
    ensures
        has_key(entries(b), k) <==> ((b.text is Some && k == "text"@) || (b.channel is Some && k
            == "channel"@) || (b.username is Some && k == "username"@) || (b.icon_url is Some && k
            == "icon_url"@) || (b.icon_emoji is Some && k == "icon_emoji"@) || (b.attachments
            is Some && k == "attachments"@) || (b.message_type is Some && k == "type"@) || (
        b.props is Some && k == "props"@)),
{
    let e1 = opt_member("text"@, b.text);
    let e2 = opt_member("channel"@, b.channel);
    let e3 = opt_member("username"@, b.username);
    let e4 = opt_member("icon_url"@, b.icon_url);
    let e5 = opt_member("icon_emoji"@, b.icon_emoji);
    let e6 = opt_member("attachments"@, b.attachments);
    let e7 = opt_member("type"@, b.message_type);
    let e8 = opt_member("props"@, b.props);
    lemma_has_key_concat(e1 + e2 + e3 + e4 + e5 + e6 + e7, e8, k);
    lemma_has_key_concat(e1 + e2 + e3 + e4 + e5 + e6, e7, k);
    lemma_has_key_concat(e1 + e2 + e3 + e4 + e5, e6, k);
    lemma_has_key_concat(e1 + e2 + e3 + e4, e5, k);
    lemma_has_key_concat(e1 + e2 + e3, e4, k);
    lemma_has_key_concat(e1 + e2, e3, k);
    lemma_has_key_concat(e1, e2, k);
    lemma_opt_member_key("text"@, b.text, k);
    lemma_opt_member_key("channel"@, b.channel, k);
    lemma_opt_member_key("username"@, b.username, k);
    lemma_opt_member_key("icon_url"@, b.icon_url, k);
    lemma_opt_member_key("icon_emoji"@, b.icon_emoji, k);
    lemma_opt_member_key("attachments"@, b.attachments, k);
    lemma_opt_member_key("type"@, b.message_type, k);
    lemma_opt_member_key("props"@, b.props, k);
}

/// The key set of the serialized object is exactly the set of populated
/// fields, mapped through their wire names: a set field's key appears, an
/// unset field's key does not, and no key outside the eight wire names
/// ever appears (in particular, an unset field is never emitted as
/// `null`, for it is not emitted at all).
pub proof fn lemma_serialization_omission(b: MMBody)
    ensures
        has_key(entries(b), "text"@) <==> b.text is Some,
        has_key(entries(b), "channel"@) <==> b.channel is Some,
        has_key(entries(b), "username"@) <==> b.username is Some,
        has_key(entries(b), "icon_url"@) <==> b.icon_url is Some,
        has_key(entries(b), "icon_emoji"@) <==> b.icon_emoji is Some,
        has_key(entries(b), "attachments"@) <==> b.attachments is Some,
        has_key(entries(b), "type"@) <==> b.message_type is Some,
        has_key(entries(b), "props"@) <==> b.props is Some,
        forall|k: Seq<char>|
            has_key(entries(b), k) ==> (k == "text"@ || k == "channel"@ || k == "username"@ || k
                == "icon_url"@ || k == "icon_emoji"@ || k == "attachments"@ || k == "type"@ || k
                == "props"@),
{
    reveal_strlit("text");
    reveal_strlit("channel");
    reveal_strlit("username");
    reveal_strlit("icon_url");
    reveal_strlit("icon_emoji");
    reveal_strlit("attachments");
    reveal_strlit("type");
    reveal_strlit("props");
    assert("text"@ != "channel"@) by {
        assert(("text"@).len() == 4);
        assert(("channel"@).len() == 7);
    }
    assert("text"@ != "username"@) by {
        assert(("text"@).len() == 4);
        assert(("username"@).len() == 8);
    }
    assert("text"@ != "icon_url"@) by {
        assert(("text"@).len() == 4);
        assert(("icon_url"@).len() == 8);
    }
    assert("text"@ != "icon_emoji"@) by {
        assert(("text"@).len() == 4);
        assert(("icon_emoji"@).len() == 10);
    }
    assert("text"@ != "attachments"@) by {
        assert(("text"@).len() == 4);
        assert(("attachments"@).len() == 11);
    }
    assert("text"@ != "type"@) by {
        assert(("text"@)[1] == 'e');
        assert(("type"@)[1] == 'y');
    }
    assert("text"@ != "props"@) by {
        assert(("text"@).len() == 4);
        assert(("props"@).len() == 5);
    }
    assert("channel"@ != "username"@) by {
        assert(("channel"@).len() == 7);
        assert(("username"@).len() == 8);
    }
    assert("channel"@ != "icon_url"@) by {
        assert(("channel"@).len() == 7);
        assert(("icon_url"@).len() == 8);
    }
    assert("channel"@ != "icon_emoji"@) by {
        assert(("channel"@).len() == 7);
        assert(("icon_emoji"@).len() == 10);
    }
    assert("channel"@ != "attachments"@) by {
        assert(("channel"@).len() == 7);
        assert(("attachments"@).len() == 11);
    }
    assert("channel"@ != "type"@) by {
        assert(("channel"@).len() == 7);
        assert(("type"@).len() == 4);
    }
    assert("channel"@ != "props"@) by {
        assert(("channel"@).len() == 7);
        assert(("props"@).len() == 5);
    }
    assert("username"@ != "icon_url"@) by {
        assert(("username"@)[0] == 'u');
        assert(("icon_url"@)[0] == 'i');
    }
    assert("username"@ != "icon_emoji"@) by {
        assert(("username"@).len() == 8);
        assert(("icon_emoji"@).len() == 10);
    }
    assert("username"@ != "attachments"@) by {
        assert(("username"@).len() == 8);
        assert(("attachments"@).len() == 11);
    }
    assert("username"@ != "type"@) by {
        assert(("username"@).len() == 8);
        assert(("type"@).len() == 4);
    }
    assert("username"@ != "props"@) by {
        assert(("username"@).len() == 8);
        assert(("props"@).len() == 5);
    }
    assert("icon_url"@ != "icon_emoji"@) by {
        assert(("icon_url"@).len() == 8);
        assert(("icon_emoji"@).len() == 10);
    }
    assert("icon_url"@ != "attachments"@) by {
        assert(("icon_url"@).len() == 8);
        assert(("attachments"@).len() == 11);
    }
    assert("icon_url"@ != "type"@) by {
        assert(("icon_url"@).len() == 8);
        assert(("type"@).len() == 4);
    }
    assert("icon_url"@ != "props"@) by {
        assert(("icon_url"@).len() == 8);
        assert(("props"@).len() == 5);
    }
    assert("icon_emoji"@ != "attachments"@) by {
        assert(("icon_emoji"@).len() == 10);
        assert(("attachments"@).len() == 11);
    }
    assert("icon_emoji"@ != "type"@) by {
        assert(("icon_emoji"@).len() == 10);
        assert(("type"@).len() == 4);
    }
    assert("icon_emoji"@ != "props"@) by {
        assert(("icon_emoji"@).len() == 10);
        assert(("props"@).len() == 5);
    }
    assert("attachments"@ != "type"@) by {
        assert(("attachments"@).len() == 11);
        assert(("type"@).len() == 4);
    }
    assert("attachments"@ != "props"@) by {
        assert(("attachments"@).len() == 11);
        assert(("props"@).len() == 5);
    }
    assert("type"@ != "props"@) by {
        assert(("type"@).len() == 4);
        assert(("props"@).len() == 5);
    }
    lemma_entries_key(b, "text"@);
    lemma_entries_key(b, "channel"@);
    lemma_entries_key(b, "username"@);
    lemma_entries_key(b, "icon_url"@);
    lemma_entries_key(b, "icon_emoji"@);
    lemma_entries_key(b, "attachments"@);
    lemma_entries_key(b, "type"@);
    lemma_entries_key(b, "props"@);
    assert forall|k: Seq<char>|
        has_key(entries(b), k) implies (k == "text"@ || k == "channel"@ || k == "username"@ || k
        == "icon_url"@ || k == "icon_emoji"@ || k == "attachments"@ || k == "type"@ || k
        == "props"@) by {
        lemma_entries_key(b, k);
    }
}

/// Two payloads with identical field assignments serialize to the same
/// string, in the same fixed key order.
pub proof fn lemma_serialization_deterministic(a: MMBody, b: MMBody)
    requires
        a.text == b.text,
        a.channel == b.channel,
        a.username == b.username,
        a.icon_url == b.icon_url,
        a.icon_emoji == b.icon_emoji,
        a.attachments == b.attachments,
        a.message_type == b.message_type,
        a.props == b.props,
    ensures
        json_of(a) == json_of(b),
{
    assert(a == b);
}

} // verus!
