//! What the gateway's HTTP handlers decide: page sizes, the summaries built
//! from cached envelopes, vote counts, the difficulty an envelope is held to,
//! and how a publish request fails.

use vstd::prelude::*;
use crate::cache::CachedMessage;
use crate::filter::{
    filter_outcome, filter_reads_malformed, validate_envelope_checked, FilterConfig, FilterError,
};
use crate::hex::{hex_decodable, hex_decode, hex_decode_spec};
use crate::models::{Comment, Post, SignedEnvelope, Vote};

verus! {

/// `limit` and `offset` query parameters.
#[derive(Debug, Clone)]
pub struct PaginationParams {
    pub limit: Option<i64>,
    pub offset: Option<i64>,
}

/// The value of an optional parameter, or its default.
pub open spec fn or_default(v: Option<i64>, default: i64) -> i64 {
    match v {
        Some(x) => x,
        None => default,
    }
}

/// The smaller of two numbers.
pub open spec fn min_i64(a: i64, b: i64) -> i64 {
    if a <= b {
        a
    } else {
        b
    }
}

fn cap(value: Option<i64>, default: i64, max: i64) -> (r: i64)
    ensures
        r == min_i64(or_default(value, default), max),
{
    let v = match value {
        Some(x) => x,
        None => default,
    };
    if v <= max {
        v
    } else {
        max
    }
}

fn offset_or_zero(offset: Option<i64>) -> (r: i64)
    ensures
        r == or_default(offset, 0),
{
    match offset {
        Some(x) => x,
        None => 0,
    }
}

impl PaginationParams {
    /// The page of the post list: at most 100 posts, 20 by default, from
    /// offset 0 by default.
    pub fn post_page(&self) -> (r: (i64, i64))
        ensures
            r.0 == min_i64(or_default(self.limit, 20), 100),
            r.1 == or_default(self.offset, 0),
    {
        (cap(self.limit, 20, 100), offset_or_zero(self.offset))
    }

    /// The page of a comment list: at most 200 comments, 50 by default, from
    /// offset 0 by default.
    pub fn comment_page(&self) -> (r: (i64, i64))
        ensures
            r.0 == min_i64(or_default(self.limit, 50), 200),
            r.1 == or_default(self.offset, 0),
    {
        (cap(self.limit, 50, 200), offset_or_zero(self.offset))
    }
}

/// The body of every answer: `ok`, and either `data` or `error`.
#[derive(Debug)]
pub struct ApiResponse<T> {
    pub ok: bool,
    pub data: Option<T>,
    pub error: Option<String>,
}

impl<T> ApiResponse<T> {
    /// A successful answer carrying `data`.
    pub fn success(data: T) -> (r: Self)
        ensures
            r.ok,
            r.data == Some(data),
            r.error is None,
    {
        ApiResponse { ok: true, data: Some(data), error: None }
    }
}

impl ApiResponse<()> {
    /// A failed answer carrying a message.
    pub fn error(msg: String) -> (r: Self)
        ensures
            !r.ok,
            r.data is None,
            r.error == Some(msg),
    {
        ApiResponse { ok: false, data: None, error: Some(msg) }
    }
}

/// A post as listed.
#[derive(Debug, Clone)]
pub struct PostSummary {
    pub id: i64,
    pub public_key: String,
    pub timestamp: i64,
    pub title: String,
    pub content: String,
    pub difficulty: u8,
    pub created_at: String,
}

/// A comment as listed.
#[derive(Debug, Clone)]
pub struct CommentSummary {
    pub id: i64,
    pub public_key: String,
    pub post_id: String,
    pub timestamp: i64,
    pub content: String,
    pub created_at: String,
}

/// The likes and unlikes of a target.
#[derive(Debug, Clone)]
pub struct VoteStats {
    pub target_id: String,
    pub likes: i64,
    pub unlikes: i64,
}

/// The gateway's status.
#[derive(Debug, Clone)]
pub struct GatewayStatus {
    pub network_id: String,
    pub total_posts: i64,
    pub total_comments: i64,
    pub total_votes: i64,
    pub dht_connected: bool,
}

/// A publish request: the hex text of the bencode of a whole envelope.
#[derive(Debug, Clone)]
pub struct PublishRequest {
    pub envelope_hex: String,
}

/// The summary of a cached post, when its bytes decoded to a post envelope.
pub fn decode_post_summary(msg: CachedMessage, envelope: Option<SignedEnvelope<Post>>) -> (r:
    Option<PostSummary>)
    ensures
        envelope is None ==> r is None,
        envelope matches Some(e) ==> r == Some(
            PostSummary {
                id: msg.id,
                public_key: msg.public_key,
                timestamp: e.timestamp,
                title: e.payload.title,
                content: e.payload.content,
                difficulty: e.payload.difficulty,
                created_at: msg.created_at,
            },
        ),
{
    let envelope = match envelope {
        Some(e) => e,
        None => {
            return None;
        },
    };
    Some(
        PostSummary {
            id: msg.id,
            public_key: msg.public_key,
            timestamp: envelope.timestamp,
            title: envelope.payload.title,
            content: envelope.payload.content,
            difficulty: envelope.payload.difficulty,
            created_at: msg.created_at,
        },
    )
}

/// The summary of a cached comment, when its bytes decoded to a comment
/// envelope.
pub fn decode_comment_summary(msg: CachedMessage, envelope: Option<SignedEnvelope<Comment>>) -> (r:
    Option<CommentSummary>)
    ensures
        envelope is None ==> r is None,
        envelope matches Some(e) ==> r == Some(
            CommentSummary {
                id: msg.id,
                public_key: msg.public_key,
                post_id: e.payload.post_id,
                timestamp: e.timestamp,
                content: e.payload.content,
                created_at: msg.created_at,
            },
        ),
{
    let envelope = match envelope {
        Some(e) => e,
        None => {
            return None;
        },
    };
    Some(
        CommentSummary {
            id: msg.id,
            public_key: msg.public_key,
            post_id: envelope.payload.post_id,
            timestamp: envelope.timestamp,
            content: envelope.payload.content,
            created_at: msg.created_at,
        },
    )
}

/// The number of votes on `target` that are likes (`like`) or unlikes.
pub open spec fn count_votes(votes: Seq<Vote>, target: Seq<char>, like: bool) -> nat
    decreases votes.len(),
{
    if votes.len() == 0 {
        0
    } else {
        count_votes(votes.drop_last(), target, like) + if votes.last().target_id@ == target && (
        votes.last().positive != 0) == like {
            1nat
        } else {
            0nat
        }
    }
}

/// The number of votes on `target`.
pub open spec fn count_target(votes: Seq<Vote>, target: Seq<char>) -> nat
    decreases votes.len(),
{
    if votes.len() == 0 {
        0
    } else {
        count_target(votes.drop_last(), target) + if votes.last().target_id@ == target {
            1nat
        } else {
            0nat
        }
    }
}

/// Every vote on a target is a like or an unlike.
pub proof fn lemma_likes_and_unlikes_partition(votes: Seq<Vote>, target: Seq<char>)
    ensures
        count_votes(votes, target, true) + count_votes(votes, target, false) == count_target(
            votes,
            target,
        ),
        count_target(votes, target) <= votes.len(),
    decreases votes.len(),
{
    if votes.len() > 0 {
        lemma_likes_and_unlikes_partition(votes.drop_last(), target);
    }
}

/// Counts the likes and unlikes of `target_id` among decoded votes.
pub fn tally_votes(target_id: String, votes: &Vec<Vote>) -> (r: VoteStats)
    requires
        votes@.len() <= i64::MAX,
    ensures
        r.target_id == target_id,
        r.likes == count_votes(votes@, target_id@, true),
        r.unlikes == count_votes(votes@, target_id@, false),
{
    let mut likes: i64 = 0;
    let mut unlikes: i64 = 0;
    let mut i: usize = 0;
    while i < votes.len()
        invariant
            votes@.len() <= i64::MAX,
            0 <= i <= votes@.len(),
            likes == count_votes(votes@.take(i as int), target_id@, true),
            unlikes == count_votes(votes@.take(i as int), target_id@, false),
        decreases votes@.len() - i,
    {
        proof {
            assert(votes@.take(i + 1).drop_last() =~= votes@.take(i as int));
            lemma_likes_and_unlikes_partition(votes@.take(i as int), target_id@);
        }
        if votes[i].target_id == target_id {
            if votes[i].is_positive() {
                likes = likes + 1;
            } else {
                unlikes = unlikes + 1;
            }
        }
        i = i + 1;
    }
    proof {
        assert(votes@.take(votes@.len() as int) =~= votes@);
    }
    VoteStats { target_id, likes, unlikes }
}

/// The difficulty an envelope is held to.
pub open spec fn claimed_difficulty(post_difficulty: Option<u8>, config: FilterConfig) -> u8 {
    match post_difficulty {
        Some(d) => d,
        None => config.min_difficulty,
    }
}

/// The difficulty an envelope is held to: the `difficulty` of its payload
/// when the payload reads as a post (`post_difficulty`), the configured
/// minimum otherwise.
pub fn extract_difficulty(post_difficulty: Option<u8>, config: &FilterConfig) -> (r: u8)
    ensures
        r == claimed_difficulty(post_difficulty, *config),
{
    match post_difficulty {
        Some(d) => d,
        None => config.min_difficulty,
    }
}

/// Why a publish request failed.
#[derive(Debug)]
pub enum PublishFailure {
    /// The request's text is not hex.
    BadHex(::hex::FromHexError),
    /// The bytes are not the bencode of an envelope of the expected kind.
    BadBencode,
    /// The filter rejected the envelope.
    Rejected(FilterError),
    /// The cache could not store the envelope.
    StoreFailed,
}

impl PublishFailure {
    /// The HTTP status of the failure: 400 for malformed input, 403 for a
    /// rejected envelope, 500 for a storage failure.
    pub fn status_code(&self) -> (r: u16)
        ensures
            r == match self {
                PublishFailure::BadHex(_) => 400u16,
                PublishFailure::BadBencode => 400u16,
                PublishFailure::Rejected(_) => 403u16,
                PublishFailure::StoreFailed => 500u16,
            },
    {
        match self {
            PublishFailure::BadHex(_) => 400,
            PublishFailure::BadBencode => 400,
            PublishFailure::Rejected(_) => 403,
            PublishFailure::StoreFailed => 500,
        }
    }
}

/// The bytes of a publish request's hex text.
pub fn decode_envelope_hex(envelope_hex: &str) -> (r: Result<Vec<u8>, PublishFailure>)
    ensures
        r is Ok <==> hex_decodable(envelope_hex@),
        r matches Ok(v) ==> Some(v@) == hex_decode_spec(envelope_hex@),
        r matches Err(e) ==> e is BadHex,
{
    match hex_decode(envelope_hex) {
        Ok(bytes) => Ok(bytes),
        Err(e) => Err(PublishFailure::BadHex(e)),
    }
}

/// What publishing answers for a filter outcome.
pub open spec fn publish_answer(outcome: Result<(), FilterError>) -> Result<(), PublishFailure> {
    match outcome {
        Ok(()) => Ok(()),
        Err(e) => Err(PublishFailure::Rejected(e)),
    }
}

/// Publishing accepts exactly what the filter accepts, and rejects with the
/// filter's own error otherwise.
pub proof fn lemma_publish_answer_follows_filter(outcome: Result<(), FilterError>)
    ensures
        publish_answer(outcome) is Ok <==> outcome is Ok,
        forall|e: FilterError|
            outcome == Err::<(), FilterError>(e) ==> publish_answer(outcome) == Err::<
                (),
                PublishFailure,
            >(PublishFailure::Rejected(e)),
{
}

/// Holds a decoded envelope to the filter, at the difficulty its payload
/// claims as a post or else the configured minimum, against the system clock.
/// `None` stands for the inputs on which the filter would read a malformed
/// field; otherwise the answer is the filter's, both for one and the same
/// clock reading.
pub fn check_publish<T>(
    envelope: &SignedEnvelope<T>,
    payload_bencode: &[u8],
    post_difficulty: Option<u8>,
    config: &FilterConfig,
) -> (r: Option<Result<(), PublishFailure>>)
    ensures
        exists|now: i64|
            {
                &&& #[trigger] filter_reads_malformed(
                    *envelope,
                    *config,
                    claimed_difficulty(post_difficulty, *config),
                    now,
                ) ==> r is None
                &&& !filter_reads_malformed(
                    *envelope,
                    *config,
                    claimed_difficulty(post_difficulty, *config),
                    now,
                ) ==> r == Some(
                    publish_answer(
                        filter_outcome(
                            *envelope,
                            payload_bencode@,
                            *config,
                            claimed_difficulty(post_difficulty, *config),
                            now,
                        ),
                    ),
                )
                &&& !filter_reads_malformed(
                    *envelope,
                    *config,
                    claimed_difficulty(post_difficulty, *config),
                    now,
                ) ==> (r == Some(Ok::<(), PublishFailure>(()))) == (filter_outcome(
                    *envelope,
                    payload_bencode@,
                    *config,
                    claimed_difficulty(post_difficulty, *config),
                    now,
                ) == Ok::<(), FilterError>(()))
                &&& forall|e: FilterError|
                    filter_outcome(
                        *envelope,
                        payload_bencode@,
                        *config,
                        claimed_difficulty(post_difficulty, *config),
                        now,
                    ) == Err::<(), FilterError>(e) && !filter_reads_malformed(
                        *envelope,
                        *config,
                        claimed_difficulty(post_difficulty, *config),
                        now,
                    ) ==> r == Some(Err::<(), PublishFailure>(PublishFailure::Rejected(e)))
            },
{
    let reported = extract_difficulty(post_difficulty, config);
    match validate_envelope_checked(envelope, payload_bencode, config, reported) {
        None => None,
        Some(Ok(())) => Some(Ok(())),
        Some(Err(e)) => Some(Err(PublishFailure::Rejected(e))),
    }
}

} // verus!
