//! Network identity and the gateways' mesh synchronisation.
//!
//! Gateways of one network share a 32-byte network id. They find each other
//! in the DHT under an info hash derived from it, and copy each other's
//! cached messages batch by batch, remembering per peer the highest row id
//! seen.

use vstd::prelude::*;
use vstd::string::StringSliceAdditionalSpecFns;
use vstd::utf8::encode_utf8;
use crate::cache::{message_type_name, message_type_of_name, MessageType};
use crate::crypto::{sha256, sha256_digest};
use crate::hex::{hex_decodable, hex_decode, hex_decode_spec};

verus! {

/// The length of a network id in bytes.
pub const NETWORK_ID_LEN: usize = 32;

/// Why a network id text was refused.
#[derive(Debug)]
pub enum NetworkIdError {
    /// The text is not hex.
    HexDecode(::hex::FromHexError),
    /// The id does not have 32 bytes; holds the length found.
    InvalidLength(usize),
}

/// Reads a network id from 64 hex digits.
pub fn parse_network_id_hex(hex_str: &str) -> (r: Result<[u8; 32], NetworkIdError>)
    ensures
        r is Ok <==> hex_decodable(hex_str@) && hex_str@.len() == 64,
        r matches Ok(id) ==> Some(id@) == hex_decode_spec(hex_str@),
        r matches Err(NetworkIdError::HexDecode(_)) <==> !hex_decodable(hex_str@),
        r matches Err(NetworkIdError::InvalidLength(n)) ==> hex_decodable(hex_str@) && n
            == hex_str@.len() / 2 && n != 32,
{
    let bytes = match hex_decode(hex_str) {
        Ok(b) => b,
        Err(e) => {
            return Err(NetworkIdError::HexDecode(e));
        },
    };
    if bytes.len() != NETWORK_ID_LEN {
        return Err(NetworkIdError::InvalidLength(bytes.len()));
    }
    let mut arr = [0u8; 32];
    let mut i: usize = 0;
    while i < 32
        invariant
            bytes@.len() == 32,
            0 <= i <= 32,
            arr@.len() == 32,
            forall|k: int| 0 <= k < i ==> arr@[k] == bytes@[k],
        decreases 32 - i,
    {
        arr.set(i, bytes[i]);
        i = i + 1;
    }
    assert(arr@ =~= bytes@);
    Ok(arr)
}

/// The network id used when none is configured:
/// SHA-256 of `actinium-cast-dev-network-v1`.
pub fn dev_network_id() -> (r: [u8; 32])
    ensures
        r@ == sha256(encode_utf8("actinium-cast-dev-network-v1"@)),
{
    let seed = "actinium-cast-dev-network-v1";
    sha256_digest(seed.as_bytes())
}

/// The DHT info hash under which the gateways of a network announce
/// themselves: the first 20 bytes of the SHA-256 of the network id.
pub fn mesh_info_hash(network_id: &[u8; 32]) -> (r: [u8; 20])
    ensures
        r@ == sha256(network_id@).subrange(0, 20),
{
    let digest = sha256_digest(network_id.as_slice());
    let mut out = [0u8; 20];
    let mut i: usize = 0;
    while i < 20
        invariant
            digest@.len() == 32,
            0 <= i <= 20,
            out@.len() == 20,
            forall|k: int| 0 <= k < i ==> out@[k] == digest@[k],
        decreases 20 - i,
    {
        out.set(i, digest[i]);
        i = i + 1;
    }
    assert(out@ =~= digest@.subrange(0, 20));
    out
}

/// The indices of the peers to ask, in order: every peer whose port is not
/// the gateway's own.
pub open spec fn peers_to_ask(peer_ports: Seq<u16>, local_port: u16) -> Seq<usize>
    decreases peer_ports.len(),
{
    if peer_ports.len() == 0 {
        Seq::empty()
    } else {
        let earlier = peers_to_ask(peer_ports.drop_last(), local_port);
        if peer_ports.last() != local_port {
            earlier.push((peer_ports.len() - 1) as usize)
        } else {
            earlier
        }
    }
}

/// Exactly the peers on another port are asked, each once, in the order found.
pub proof fn lemma_peers_to_ask_exact(peer_ports: Seq<u16>, local_port: u16)
    requires
        peer_ports.len() <= usize::MAX,
    ensures
        forall|i: int|
            0 <= i < peer_ports.len() ==> (peers_to_ask(peer_ports, local_port).contains(
                i as usize,
            ) <==> #[trigger] peer_ports[i] != local_port),
        forall|k: int|
            0 <= k < peers_to_ask(peer_ports, local_port).len() ==> #[trigger] peers_to_ask(
                peer_ports,
                local_port,
            )[k] < peer_ports.len() && peer_ports[peers_to_ask(
                peer_ports,
                local_port,
            )[k] as int] != local_port,
        forall|k: int, l: int|
            0 <= k < l < peers_to_ask(peer_ports, local_port).len() ==> #[trigger] peers_to_ask(
                peer_ports,
                local_port,
            )[k] < #[trigger] peers_to_ask(peer_ports, local_port)[l],
    decreases peer_ports.len(),
{
    if peer_ports.len() > 0 {
        let rest = peer_ports.drop_last();
        lemma_peers_to_ask_exact(rest, local_port);
        let earlier = peers_to_ask(rest, local_port);
        let all = peers_to_ask(peer_ports, local_port);
        let n = peer_ports.len() - 1;
        assert(all == if peer_ports.last() != local_port {
            earlier.push(n as usize)
        } else {
            earlier
        });
        assert forall|i: int| 0 <= i < peer_ports.len() implies (all.contains(i as usize)
            <==> #[trigger] peer_ports[i] != local_port) by {
            if i < n {
                assert(rest[i] == peer_ports[i]);
                if all.contains(i as usize) {
                    let k = choose|k: int| 0 <= k < all.len() && all[k] == i as usize;
                    if k < earlier.len() {
                        assert(earlier.contains(i as usize));
                    }
                }
                if earlier.contains(i as usize) {
                    let k = choose|k: int| 0 <= k < earlier.len() && earlier[k] == i as usize;
                    assert(all[k] == i as usize);
                }
            } else {
                if peer_ports[i] != local_port {
                    assert(all[all.len() - 1] == i as usize);
                } else {
                    if all.contains(i as usize) {
                        let k = choose|k: int| 0 <= k < all.len() && all[k] == i as usize;
                        assert(earlier[k] < rest.len());
                    }
                }
            }
        }
        assert forall|k: int| 0 <= k < all.len() implies #[trigger] all[k] < peer_ports.len()
            && peer_ports[all[k] as int] != local_port by {
            if k < earlier.len() {
                assert(earlier[k] < rest.len());
                assert(rest[earlier[k] as int] == peer_ports[earlier[k] as int]);
            }
        }
        assert forall|k: int, l: int| 0 <= k < l < all.len() implies #[trigger] all[k]
            < #[trigger] all[l] by {
            if l < earlier.len() {
                assert(earlier[k] < earlier[l]);
            } else {
                assert(earlier[k] < rest.len());
            }
        }
    }
}

/// Which of the peers found in the DHT a gateway asks for messages: all but
/// those on its own port (itself, on a single machine).
pub fn peers_to_sync(peer_ports: &Vec<u16>, local_port: u16) -> (r: Vec<usize>)
    ensures
        r@ == peers_to_ask(peer_ports@, local_port),
        forall|i: int|
            0 <= i < peer_ports@.len() ==> (r@.contains(i as usize) <==> #[trigger] peer_ports@[i]
                != local_port),
{
    let mut r: Vec<usize> = Vec::new();
    let mut i: usize = 0;
    while i < peer_ports.len()
        invariant
            0 <= i <= peer_ports@.len(),
            r@ == peers_to_ask(peer_ports@.take(i as int), local_port),
        decreases peer_ports@.len() - i,
    {
        proof {
            assert(peer_ports@.take(i + 1).drop_last() =~= peer_ports@.take(i as int));
        }
        if peer_ports[i] != local_port {
            r.push(i);
        }
        i = i + 1;
    }
    proof {
        assert(peer_ports@.take(peer_ports@.len() as int) =~= peer_ports@);
        lemma_peers_to_ask_exact(peer_ports@, local_port);
    }
    r
}

/// The row after which a peer is asked for messages: the highest row id seen
/// from it, or 0 for a peer not asked before.
pub fn sync_start(known: Option<i64>) -> (r: i64)
    ensures
        r == match known {
            Some(id) => id,
            None => 0,
        },
{
    match known {
        Some(id) => id,
        None => 0,
    }
}

/// A message as another gateway's sync endpoint lists it.
#[derive(Debug, Clone)]
pub struct SyncMessage {
    pub id: i64,
    pub msg_type: String,
    pub public_key: String,
    pub timestamp: i64,
    pub envelope_hex: String,
}

/// Every stored name is read back as its own type, and any other name as a
/// post.
pub proof fn lemma_type_or_post_reads_names(name: Seq<char>)
    ensures
        forall|t: MessageType| #[trigger] type_or_post(message_type_name(t)) == t,
        (forall|t: MessageType| message_type_name(t) != name) ==> type_or_post(name)
            == MessageType::Post,
        type_or_post(name) == match crate::cache::message_type_of_name(name) {
            Some(t) => t,
            None => MessageType::Post,
        },
{
    assert forall|t: MessageType| #[trigger] type_or_post(message_type_name(t)) == t by {
        crate::cache::lemma_message_type_names_distinct(t, MessageType::Comment);
        crate::cache::lemma_message_type_names_distinct(t, MessageType::Vote);
    }
    crate::cache::lemma_message_type_names_distinct(MessageType::Post, MessageType::Comment);
    crate::cache::lemma_message_type_names_distinct(MessageType::Post, MessageType::Vote);
}

/// A message to store locally.
#[derive(Debug)]
pub struct SyncRecord {
    pub msg_type: MessageType,
    pub public_key: String,
    pub timestamp: i64,
    pub bencode_data: Vec<u8>,
}

/// The message type stored under a name, `Post` for an unknown name.
pub open spec fn type_or_post(name: Seq<char>) -> MessageType {
    if name == message_type_name(MessageType::Comment) {
        MessageType::Comment
    } else if name == message_type_name(MessageType::Vote) {
        MessageType::Vote
    } else {
        MessageType::Post
    }
}

/// The highest row id among a batch, and the one already seen.
pub open spec fn max_sync_id(since_id: i64, messages: Seq<SyncMessage>) -> i64
    decreases messages.len(),
{
    if messages.len() == 0 {
        since_id
    } else {
        let m = max_sync_id(since_id, messages.drop_last());
        if messages.last().id > m {
            messages.last().id
        } else {
            m
        }
    }
}

/// Syncing never moves a peer's position back, and passes every listed row.
pub proof fn lemma_sync_position_advances(since_id: i64, messages: Seq<SyncMessage>)
    ensures
        max_sync_id(since_id, messages) >= since_id,
        forall|k: int| 0 <= k < messages.len() ==> max_sync_id(since_id, messages) >= #[trigger] messages[k].id,
        max_sync_id(since_id, messages) == since_id || exists|k: int|
            0 <= k < messages.len() && max_sync_id(since_id, messages) == #[trigger] messages[k].id,
    decreases messages.len(),
{
    if messages.len() > 0 {
        lemma_sync_position_advances(since_id, messages.drop_last());
        let rest = messages.drop_last();
        if max_sync_id(since_id, rest) != since_id && max_sync_id(since_id, messages) == max_sync_id(since_id, rest) {
            let k = choose|k: int| 0 <= k < rest.len() && max_sync_id(since_id, rest) == #[trigger] rest[k].id;
            assert(messages[k] == rest[k]);
        }
        if max_sync_id(since_id, messages) != max_sync_id(since_id, rest) {
            assert(max_sync_id(since_id, messages) == messages[messages.len() - 1].id);
        }
        assert forall|k: int| 0 <= k < messages.len() implies max_sync_id(since_id, messages)
            >= #[trigger] messages[k].id by {
            if k < messages.len() - 1 {
                assert(messages[k] == messages.drop_last()[k]);
            }
        }
    }
}

/// The messages of a batch whose envelope text is hex.
pub open spec fn storable(messages: Seq<SyncMessage>) -> Seq<SyncMessage> {
    messages.filter(|m: SyncMessage| hex_decodable(m.envelope_hex@))
}

/// A record stores a listed message.
pub open spec fn stores(record: SyncRecord, message: SyncMessage) -> bool {
    &&& record.msg_type == type_or_post(message.msg_type@)
    &&& record.public_key == message.public_key
    &&& record.timestamp == message.timestamp
    &&& Some(record.bencode_data@) == hex_decode_spec(message.envelope_hex@)
}

/// What a gateway does with a batch listed by a peer after row `since_id`:
/// the next `since_id` for that peer, and, in order, a record for each
/// message whose envelope text is hex (its type read from its name, `Post`
/// when the name is unknown).
pub fn plan_sync_batch(since_id: i64, messages: Vec<SyncMessage>) -> (r: (i64, Vec<SyncRecord>))
    ensures
        r.0 == max_sync_id(since_id, messages@),
        r.1@.len() == storable(messages@).len(),
        forall|i: int| 0 <= i < r.1@.len() ==> stores(#[trigger] r.1@[i], storable(messages@)[i]),
        forall|i: int|
            0 <= i < r.1@.len() ==> (#[trigger] r.1@[i]).msg_type == match message_type_of_name(
                storable(messages@)[i].msg_type@,
            ) {
                Some(t) => t,
                None => MessageType::Post,
            },
        forall|i: int|
            0 <= i < r.1@.len() ==> hex_decodable((#[trigger] storable(messages@)[i]).envelope_hex@)
                && messages@.contains(storable(messages@)[i]),
{
    let ghost all = messages@;
    let ghost pred = |m: SyncMessage| hex_decodable(m.envelope_hex@);
    let mut rest = messages;
    let mut max_id = since_id;
    let mut records: Vec<SyncRecord> = Vec::new();
    let ghost mut i: int = 0;
    assert(all.skip(0) =~= all);
    while rest.len() > 0
        invariant
            pred == (|m: SyncMessage| hex_decodable(m.envelope_hex@)),
            0 <= i <= all.len(),
            rest@ == all.skip(i),
            max_id == max_sync_id(since_id, all.take(i)),
            records@.len() == all.take(i).filter(pred).len(),
            forall|k: int|
                0 <= k < records@.len() ==> stores(
                    #[trigger] records@[k],
                    all.take(i).filter(pred)[k],
                ),
        decreases rest@.len(),
    {
        let msg = rest.remove(0);
        let ghost before = all.take(i).filter(pred);
        proof {
            assert(all.take(i + 1).drop_last() =~= all.take(i));
            assert(all.take(i + 1).last() == msg);
            assert(all.skip(i + 1) =~= rest@);
            reveal_with_fuel(Seq::<_>::filter, 1);
            assert(all.take(i + 1).filter(pred) == if pred(msg) {
                before.push(msg)
            } else {
                before
            });
        }
        if msg.id > max_id {
            max_id = msg.id;
        }
        let msg_t = match MessageType::from_str(msg.msg_type.as_str()) {
            Some(t) => t,
            None => MessageType::Post,
        };
        proof {
            crate::cache::lemma_message_type_names_distinct(MessageType::Post, MessageType::Comment);
            crate::cache::lemma_message_type_names_distinct(MessageType::Post, MessageType::Vote);
            assert(msg_t == type_or_post(msg.msg_type@));
        }
        match hex_decode(msg.envelope_hex.as_str()) {
            Ok(bencode_data) => {
                let record = SyncRecord {
                    msg_type: msg_t,
                    public_key: msg.public_key,
                    timestamp: msg.timestamp,
                    bencode_data,
                };
                records.push(record);
            },
            Err(_) => {},
        }
        proof {
            i = i + 1;
        }
    }
    proof {
        assert(all.take(i) =~= all);
        lemma_type_or_post_reads_names(Seq::<char>::empty());
        assert forall|k: int| 0 <= k < records@.len() implies (#[trigger] records@[k]).msg_type
            == match message_type_of_name(storable(all)[k].msg_type@) {
            Some(t) => t,
            None => MessageType::Post,
        } by {
            lemma_type_or_post_reads_names(storable(all)[k].msg_type@);
        }
        assert forall|k: int| 0 <= k < records@.len() implies hex_decodable(
            (#[trigger] storable(all)[k]).envelope_hex@,
        ) && all.contains(storable(all)[k]) by {
            let f = storable(all);
            all.lemma_filter_pred(|m: SyncMessage| hex_decodable(m.envelope_hex@), k);
            assert(f.contains(f[k]));
            all.lemma_filter_contains_rev(|m: SyncMessage| hex_decodable(m.envelope_hex@), f[k]);
        }
    }
    (max_id, records)
}

} // verus!
