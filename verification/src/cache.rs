//! The records of the gateway's message cache and the rules applied to them.
//!
//! Storage itself (SQLite) lives with the gateway program; this module holds
//! what is decided about the records.

use vstd::prelude::*;
use vstd::string::StringSliceAdditionalSpecFns;
use crate::text::{contains_bytes, contains_subslice, str_equal};

verus! {

/// The kind of a cached message.
#[derive(Debug, Clone, Copy, PartialEq, Eq)]
pub enum MessageType {
    Post,
    Comment,
    Vote,
}

/// The name under which a message type is stored.
pub open spec fn message_type_name(t: MessageType) -> Seq<char> {
    match t {
        MessageType::Post => "post"@,
        MessageType::Comment => "comment"@,
        MessageType::Vote => "vote"@,
    }
}

/// The message type stored under a name, if any.
pub open spec fn message_type_of_name(name: Seq<char>) -> Option<MessageType> {
    if name == message_type_name(MessageType::Post) {
        Some(MessageType::Post)
    } else if name == message_type_name(MessageType::Comment) {
        Some(MessageType::Comment)
    } else if name == message_type_name(MessageType::Vote) {
        Some(MessageType::Vote)
    } else {
        None
    }
}

impl MessageType {
    /// The stored name: `post`, `comment` or `vote`.
    pub fn as_str(&self) -> (r: &'static str)
        ensures
            r@ == message_type_name(*self),
    {
        match self {
            MessageType::Post => "post",
            MessageType::Comment => "comment",
            MessageType::Vote => "vote",
        }
    }

    /// The message type stored under a name, if any.
    pub fn from_str(s: &str) -> (r: Option<Self>)
        ensures
            r == message_type_of_name(s@),
    {
        if str_equal(s, "post") {
            Some(MessageType::Post)
        } else if str_equal(s, "comment") {
            Some(MessageType::Comment)
        } else if str_equal(s, "vote") {
            Some(MessageType::Vote)
        } else {
            None
        }
    }
}

/// The three stored names differ.
pub proof fn lemma_message_type_names_distinct(a: MessageType, b: MessageType)
    ensures
        message_type_name(a) == message_type_name(b) ==> a == b,
{
    reveal_strlit("post");
    reveal_strlit("comment");
    reveal_strlit("vote");
    assert("post"@.len() != "comment"@.len());
    assert("post"@[0] != "vote"@[0]);
    assert("comment"@.len() != "vote"@.len());
}

/// Reading back the stored name of a type gives the type.
pub proof fn lemma_message_type_name_roundtrip(t: MessageType)
    ensures
        message_type_of_name(message_type_name(t)) == Some(t),
{
    lemma_message_type_names_distinct(t, MessageType::Post);
    lemma_message_type_names_distinct(t, MessageType::Comment);
    lemma_message_type_names_distinct(t, MessageType::Vote);
}

/// A cached message.
#[derive(Debug, Clone)]
pub struct CachedMessage {
    /// Row id, increasing with insertion order.
    pub id: i64,
    /// The stored type name.
    pub msg_type: String,
    /// The author's public key in hex.
    pub public_key: String,
    /// The envelope's timestamp.
    pub timestamp: i64,
    /// The bencode text of the whole envelope.
    pub bencode_data: Vec<u8>,
    /// When the row was stored.
    pub created_at: String,
}

/// A cached message mentions a key when the key's text occurs in its bencode
/// bytes (the `post_id` field of a comment holds the post's key text).
pub open spec fn mentions_key(message: CachedMessage, key: Seq<u8>) -> bool {
    contains_bytes(message.bencode_data@, key)
}

/// A message mentions a key exactly when the key's bytes occur at some
/// position of its whole bencode data.
pub proof fn lemma_mentions_key_anywhere(message: CachedMessage, key: Seq<u8>)
    ensures
        mentions_key(message, key) <==> exists|i: int|
            0 <= i && i + key.len() <= message.bencode_data@.len() && #[trigger] message.bencode_data@.subrange(
                i,
                i + key.len(),
            ) == key,
        forall|i: int|
            0 <= i && i + key.len() <= message.bencode_data@.len()
                && #[trigger] message.bencode_data@.subrange(i, i + key.len()) == key
                ==> mentions_key(message, key),
{
    let d = message.bencode_data@;
    if mentions_key(message, key) {
        let i = choose|i: int| crate::text::occurs_at(d, key, i);
        assert(d.subrange(i, i + key.len()) == key);
    }
    assert forall|i: int|
        0 <= i && i + key.len() <= d.len() && #[trigger] d.subrange(i, i + key.len()) == key
        implies mentions_key(message, key) by {
        assert(crate::text::occurs_at(d, key, i));
    }
}

/// The messages that mention a key, in their order.
pub open spec fn kept_comments(messages: Seq<CachedMessage>, key: Seq<u8>) -> Seq<CachedMessage> {
    messages.filter(|m: CachedMessage| mentions_key(m, key))
}

/// The messages kept are exactly those that mention the key.
pub proof fn lemma_comments_kept_exactly(messages: Seq<CachedMessage>, key: Seq<u8>)
    ensures
        kept_comments(messages, key).len() <= messages.len(),
        forall|k: int|
            0 <= k < kept_comments(messages, key).len() ==> mentions_key(
                #[trigger] kept_comments(messages, key)[k],
                key,
            ),
        forall|k: int|
            0 <= k < messages.len() ==> (#[trigger] kept_comments(messages, key).contains(
                messages[k],
            ) <==> mentions_key(messages[k], key)),
{
    let pred = |m: CachedMessage| mentions_key(m, key);
    messages.lemma_filter_len(pred);
    assert forall|k: int| 0 <= k < kept_comments(messages, key).len() implies mentions_key(
        #[trigger] kept_comments(messages, key)[k],
        key,
    ) by {
        messages.lemma_filter_pred(pred, k);
    }
    assert forall|k: int| 0 <= k < messages.len() implies (#[trigger] kept_comments(
        messages,
        key,
    ).contains(messages[k]) <==> mentions_key(messages[k], key)) by {
        if mentions_key(messages[k], key) {
            messages.lemma_filter_contains(pred, k);
        }
        if kept_comments(messages, key).contains(messages[k]) {
            let j = choose|j: int|
                0 <= j < kept_comments(messages, key).len() && kept_comments(messages, key)[j]
                    == messages[k];
            messages.lemma_filter_pred(pred, j);
        }
    }
}

/// Keeps, in order, the messages whose bencode bytes contain the UTF-8 bytes
/// of `post_public_key_hex`. The key is looked for in windows of its own
/// length, so it must not be empty unless there is no message to look in.
pub fn comments_mentioning(messages: Vec<CachedMessage>, post_public_key_hex: &str) -> (r: Vec<
    CachedMessage,
>)
    requires
        post_public_key_hex@.len() > 0 || messages@.len() == 0,
    ensures
        r@ == messages@.filter(|m: CachedMessage| mentions_key(m, post_public_key_hex.spec_bytes())),
        r@ == kept_comments(messages@, post_public_key_hex.spec_bytes()),
{
    let key = post_public_key_hex.as_bytes();
    let ghost pred = |m: CachedMessage| mentions_key(m, key@);
    let ghost all = messages@;
    proof {
        vstd::utf8::encode_utf8_decode_utf8(post_public_key_hex@);
        if key@.len() == 0 && post_public_key_hex@.len() > 0 {
            assert(vstd::utf8::decode_utf8(key@) =~= Seq::<char>::empty());
        }
    }
    let mut rest = messages;
    let mut kept: Vec<CachedMessage> = Vec::new();
    let ghost mut i: int = 0;
    assert(all.skip(0) =~= all);
    while rest.len() > 0
        invariant
            key@.len() > 0 || all.len() == 0,
            pred == (|m: CachedMessage| mentions_key(m, key@)),
            0 <= i <= all.len(),
            rest@ == all.skip(i),
            kept@ == all.take(i).filter(pred),
        decreases rest@.len(),
    {
        let m = rest.remove(0);
        let ghost before = kept@;
        let keep = contains_subslice(m.bencode_data.as_slice(), key);
        proof {
            assert(all.take(i + 1).drop_last() =~= all.take(i));
            assert(all.take(i + 1).last() == m);
            assert(all.skip(i + 1) =~= rest@);
            assert(keep == pred(m));
            reveal_with_fuel(Seq::<_>::filter, 1);
            assert(all.take(i + 1).filter(pred) == if pred(m) {
                before.push(m)
            } else {
                before
            });
        }
        if keep {
            kept.push(m);
        }
        proof {
            i = i + 1;
        }
    }
    proof {
        assert(all.take(i) =~= all);
    }
    kept
}

} // verus!
