//! Passwordless login: a challenge is a magic link plus a one-time code; either
//! can be confirmed once, and confirming one retires the other.

use rand::{Rng, SeedableRng};
use vstd::prelude::*;
use vstd::string::*;
use crate::token::{is_raw_token, random_token};

verus! {

/// Seconds a challenge stays valid in the caches.
pub const CHALLENGE_TTL_SECS: u64 = 120;

/// An outstanding challenge: (magic link, one-time code, user id, nonce).
pub type Challenge = (String, u32, u128, String);

/// The plain value of a challenge.
pub open spec fn challenge_view(c: Challenge) -> (Seq<char>, u32, u128, Seq<char>) {
    (c.0@, c.1, c.2, c.3@)
}

#[verifier::external_type_specification]
#[verifier::external_body]
#[verifier::reject_recursive_types(K)]
#[verifier::reject_recursive_types(V)]
#[verifier::reject_recursive_types(S)]
pub struct ExMokaCache<K, V, S>(moka::sync::Cache<K, V, S>);

/// A cache of outstanding challenges keyed by text.
pub type ChallengeCache = moka::sync::Cache<String, Challenge>;

/// The challenges a cache holds: those inserted through this library and not
/// removed through it, keyed by text. Entries may also lapse on their own
/// after the cache's time-to-live; a lapsed entry is no longer returned.
pub uninterp spec fn cache_entries(c: ChallengeCache) -> Map<
    Seq<char>,
    (Seq<char>, u32, u128, Seq<char>),
>;

/// No challenges at all.
pub open spec fn no_challenges() -> Map<Seq<char>, (Seq<char>, u32, u128, Seq<char>)> {
    Map::empty()
}

/// The longest time-to-live moka accepts: 1000 years of 365 days, in seconds.
pub const MAX_TTL_SECS: u64 = 31_536_000_000;

/// Calls `moka::sync::Cache::builder().time_to_live(..).build()`, which
/// panics for a time-to-live over 1000 years. Claims the new cache holds
/// nothing. The only caches built are the challenge caches, so only their
/// lifetime of `CHALLENGE_TTL_SECS` is admitted.
#[verifier::external_body]
fn new_cache(ttl_secs: u64) -> (cache: ChallengeCache)
    requires
        ttl_secs <= MAX_TTL_SECS,
        ttl_secs == CHALLENGE_TTL_SECS,
    ensures
        cache_entries(cache) == no_challenges(),
{
    moka::sync::Cache::builder().time_to_live(std::time::Duration::from_secs(ttl_secs)).build()
}

/// Calls `moka::sync::Cache::insert`. Claims the cache then holds `value`
/// under `key`, replacing what was there, and nothing else changed.
#[verifier::external_body]
fn cache_insert(c: &mut ChallengeCache, key: String, value: Challenge)
    ensures
        cache_entries(*final(c)) == cache_entries(*old(c)).insert(key@, challenge_view(value)),
{
    c.insert(key, value)
}

/// Calls `moka::sync::Cache::remove`. Claims the key is gone afterwards; a
/// returned challenge is the one held under the key; nothing is returned for
/// a key the cache did not hold. (A held entry that lapsed is also not
/// returned.)
#[verifier::external_body]
fn cache_remove(c: &mut ChallengeCache, key: &String) -> (r: Option<
    Challenge,
>)
    ensures
        cache_entries(*final(c)) == cache_entries(*old(c)).remove(key@),
        r matches Some(v) ==> cache_entries(*old(c)).contains_key(key@) && cache_entries(*old(c))[key@] == challenge_view(v),
        !cache_entries(*old(c)).contains_key(key@) ==> r is None,
{
    c.remove(key)
}

/// The lowest one-time code (inclusive).
pub const OTP_LOW: u32 = 100000;

/// The bound above every one-time code (exclusive).
pub const OTP_HIGH: u32 = 999999;

/// Seeds `rand::rngs::StdRng` from `OsRng` (`SeedableRng::from_rng`) and
/// draws `gen_range(low..high)` from it. Claims only that a drawn number lies
/// in that range; `None` when seeding fails because the operating system's
/// random source failed. An empty range would make `gen_range` panic, so it
/// is not admitted.
#[verifier::external_body]
fn random_in(low: u32, high: u32) -> (v: Option<u32>)
    requires
        low < high,
    ensures
        v matches Some(x) ==> low <= x < high,
{
    match rand::rngs::StdRng::from_rng(rand::rngs::OsRng) {
        Ok(mut rng) => Some(rng.gen_range(low..high)),
        Err(_) => None,
    }
}

/// Failures of passwordless login.
#[derive(PartialEq, Eq, Structural, Clone, Copy, Debug)]
pub enum PasswdlessError {
    DbError,
    BadToken,
    UserNotFound,
    /// The operating system's random source failed.
    RandomSource,
}

impl PasswdlessError {
    /// The text of this error.
    pub fn message(&self) -> (m: String)
        ensures
            *self == PasswdlessError::DbError ==> m@ == "service unavailable, please try again later"@,
            *self == PasswdlessError::BadToken ==> m@ == "Invalid or expired token"@,
            *self == PasswdlessError::UserNotFound ==> m@ == "User not found"@,
            *self == PasswdlessError::RandomSource ==> m@ == "Random source failed"@,
    {
        match self {
            PasswdlessError::DbError => String::from_str("service unavailable, please try again later"),
            PasswdlessError::BadToken => String::from_str("Invalid or expired token"),
            PasswdlessError::UserNotFound => String::from_str("User not found"),
            PasswdlessError::RandomSource => String::from_str("Random source failed"),
        }
    }
}

/// How a passwordless failure is answered: status and plain-text body (none
/// for an internal failure).
pub fn translate_error(error: PasswdlessError) -> (r: (u16, Option<String>))
    ensures
        error == PasswdlessError::DbError ==> r.0 == 500 && r.1 is None,
        error == PasswdlessError::RandomSource ==> r.0 == 500 && r.1 is None,
        error == PasswdlessError::BadToken ==> (r.0 == 400 && (r.1 matches Some(b) && b@
            == "Invalid or expired token"@)),
        error == PasswdlessError::UserNotFound ==> (r.0 == 404 && (r.1 matches Some(b) && b@
            == "User not found"@)),
{
    match error {
        PasswdlessError::DbError => (500, None),
        PasswdlessError::RandomSource => (500, None),
        PasswdlessError::BadToken => (400, Some(String::from_str("Invalid or expired token"))),
        PasswdlessError::UserNotFound => (404, Some(String::from_str("User not found"))),
    }
}

/// Emitted when a challenge is issued, for delivery to the user.
pub struct ChallengeRequested {
    pub token: u32,
    pub link: String,
    pub nonce: String,
}

/// The outstanding challenges, by magic link and by nonce.
pub struct Caches {
    pub links: ChallengeCache,
    pub tokens: ChallengeCache,
}

impl Caches {
    /// Challenges by link.
    pub open spec fn links(&self) -> Map<Seq<char>, (Seq<char>, u32, u128, Seq<char>)> {
        cache_entries(self.links)
    }

    /// Challenges by nonce.
    pub open spec fn tokens(&self) -> Map<Seq<char>, (Seq<char>, u32, u128, Seq<char>)> {
        cache_entries(self.tokens)
    }

    /// Empty caches whose entries lapse after two minutes.
    pub fn new() -> (c: Caches)
        ensures
            c.links() == no_challenges(),
            c.tokens() == no_challenges(),
    {
        let tokens = new_cache(CHALLENGE_TTL_SECS);
        let links = new_cache(CHALLENGE_TTL_SECS);
        Caches { tokens, links }
    }
}

/// Issues a challenge for the user `email`: a fresh link, a fresh nonce and a
/// six-digit code, recorded under both the nonce and the link. When the
/// random source fails, nothing is recorded and `RandomSource` is answered.
pub fn release_pair(email: u128, caches: &mut Caches) -> (r: Result<ChallengeRequested, PasswdlessError>)
    ensures
        r matches Ok(c) ==> {
            &&& is_raw_token(c.link@)
            &&& is_raw_token(c.nonce@)
            &&& 100000 <= c.token < 999999
            &&& final(caches).tokens() == old(caches).tokens().insert(
                c.nonce@,
                (c.link@, c.token, email, c.nonce@),
            )
            &&& final(caches).links() == old(caches).links().insert(
                c.link@,
                (c.link@, c.token, email, c.nonce@),
            )
        },
        r is Err ==> r == Err::<ChallengeRequested, PasswdlessError>(PasswdlessError::RandomSource)
            && final(caches).tokens() == old(caches).tokens() && final(caches).links() == old(caches).links(),
{
    let link = match random_token() {
        Some(t) => t,
        None => return Err(PasswdlessError::RandomSource),
    };
    let nonce = match random_token() {
        Some(t) => t,
        None => return Err(PasswdlessError::RandomSource),
    };
    let token = match random_in(OTP_LOW, OTP_HIGH) {
        Some(t) => t,
        None => return Err(PasswdlessError::RandomSource),
    };
    Ok(record_challenge(email, link, nonce, token, caches))
}

/// Records a challenge for the user `email` with the drawn link, nonce and
/// code, under the nonce and under the link, and gives the event for it.
pub fn record_challenge(email: u128, link: String, nonce: String, token: u32, caches: &mut Caches) -> (c: ChallengeRequested)
    ensures
        c.link == link,
        c.nonce == nonce,
        c.token == token,
        final(caches).tokens() == old(caches).tokens().insert(nonce@, (link@, token, email, nonce@)),
        final(caches).links() == old(caches).links().insert(link@, (link@, token, email, nonce@)),
{
    cache_insert(&mut caches.tokens, nonce.clone(), (link.clone(), token, email, nonce.clone()));
    cache_insert(&mut caches.links, link.clone(), (link.clone(), token, email, nonce.clone()));
    ChallengeRequested { token, link, nonce }
}

/// Settles a confirmation by link once the link's entry was taken out of the
/// link cache: a taken challenge retires its code too and answers its user;
/// nothing taken is `BadToken`, with the caches left as they are.
pub fn settle_link(caches: &mut Caches, removed: Option<Challenge>) -> (r: Result<u128, PasswdlessError>)
    ensures
        removed matches Some(c) ==> r == Ok::<u128, PasswdlessError>(c.2) && final(caches).tokens()
            == old(caches).tokens().remove(c.3@) && final(caches).links() == old(caches).links(),
        removed is None ==> r == Err::<u128, PasswdlessError>(PasswdlessError::BadToken) && final(caches).tokens() == old(caches).tokens() && final(caches).links() == old(caches).links(),
{
    match removed {
        None => Err(PasswdlessError::BadToken),
        Some(c) => {
            let _ = cache_remove(&mut caches.tokens, &c.3);
            Ok(c.2)
        },
    }
}

/// Settles a confirmation by code once the nonce's entry was taken out of the
/// code cache: a taken challenge whose code is `token` retires its link too
/// and answers its user; anything else is `BadToken`, with the caches left as
/// they are.
pub fn settle_code(caches: &mut Caches, removed: Option<Challenge>, token: u32) -> (r: Result<
    u128,
    PasswdlessError,
>)
    ensures
        match removed {
            Some(c) => if c.1 == token {
                r == Ok::<u128, PasswdlessError>(c.2) && final(caches).links() == old(
                    caches
                ).links().remove(c.0@) && final(caches).tokens() == old(caches).tokens()
            } else {
                r == Err::<u128, PasswdlessError>(PasswdlessError::BadToken) && *final(caches)
                    == *old(caches)
            },
            None => r == Err::<u128, PasswdlessError>(PasswdlessError::BadToken) && *final(caches)
                == *old(caches),
        },
{
    match removed {
        Some(c) => {
            if c.1 != token {
                return Err(PasswdlessError::BadToken);
            }
            let _ = cache_remove(&mut caches.links, &c.0);
            Ok(c.2)
        },
        None => Err(PasswdlessError::BadToken),
    }
}

/// Confirms a challenge by its magic link: the link and the code of the same
/// challenge are both retired, and the challenge's user is returned.
pub fn confirm_link(caches: &mut Caches, token: String) -> (r: Result<u128, PasswdlessError>)
    ensures
        final(caches).links() == old(caches).links().remove(token@),
        !old(caches).links().contains_key(token@) ==> r == Err::<u128, PasswdlessError>(
            PasswdlessError::BadToken,
        ),
        r is Err ==> r == Err::<u128, PasswdlessError>(PasswdlessError::BadToken)
            && final(caches).tokens() == old(caches).tokens(),
        r matches Ok(id) ==> old(caches).links().contains_key(token@) && old(caches).links()[token@].2 == id && final(caches).tokens() == old(caches).tokens().remove(
            old(caches).links()[token@].3,
        ),
{
    let removed = cache_remove(&mut caches.links, &token);
    settle_link(caches, removed)
}

/// Confirms a challenge by its nonce and code. The nonce is retired whether
/// or not the code matches; on a match the challenge's link is retired too and
/// its user is returned.
pub fn confirm_token(caches: &mut Caches, token: u32, nonce: String) -> (r: Result<
    u128,
    PasswdlessError,
>)
    ensures
        final(caches).tokens() == old(caches).tokens().remove(nonce@),
        !old(caches).tokens().contains_key(nonce@) ==> r == Err::<u128, PasswdlessError>(
            PasswdlessError::BadToken,
        ),
        old(caches).tokens().contains_key(nonce@) && old(caches).tokens()[nonce@].1 != token ==> r
            == Err::<u128, PasswdlessError>(PasswdlessError::BadToken),
        r is Err ==> r == Err::<u128, PasswdlessError>(PasswdlessError::BadToken)
            && final(caches).links() == old(caches).links(),
        r matches Ok(id) ==> old(caches).tokens().contains_key(nonce@) && old(caches).tokens()[nonce@].1 == token && old(caches).tokens()[nonce@].2 == id && final(caches).links() == old(caches).links().remove(old(caches).tokens()[nonce@].0),
{
    let removed = cache_remove(&mut caches.tokens, &nonce);
    settle_code(caches, removed, token)
}

/// A recorded challenge round-trips: in the caches as recording leaves
/// them, the link's entry names the challenge's user and nonce, and the
/// nonce's entry names its user and code; settling by the link retires the
/// nonce, and settling by the code retires the link.
pub proof fn law_challenge_round_trip(
    links: Map<Seq<char>, (Seq<char>, u32, u128, Seq<char>)>,
    tokens: Map<Seq<char>, (Seq<char>, u32, u128, Seq<char>)>,
    link: Seq<char>,
    nonce: Seq<char>,
    token: u32,
    email: u128,
)
    ensures
        ({
            let ch = (link, token, email, nonce);
            let links1 = links.insert(link, ch);
            let tokens1 = tokens.insert(nonce, ch);
            &&& links1.contains_key(link) && links1[link].2 == email && links1[link].3 == nonce
            &&& tokens1.contains_key(nonce) && tokens1[nonce].1 == token && tokens1[nonce].2 == email
                && tokens1[nonce].0 == link
            &&& !tokens1.remove(links1[link].3).contains_key(nonce)
            &&& !links1.remove(tokens1[nonce].0).contains_key(link)
        }),
{
}

/// A challenge stays valid for two minutes: the only lifetime the challenge
/// caches can be built with is `CHALLENGE_TTL_SECS`, which is 120 seconds.
pub proof fn law_challenges_live_two_minutes()
    ensures
        CHALLENGE_TTL_SECS == 120,
        CHALLENGE_TTL_SECS <= MAX_TTL_SECS,
{
}

} // verus!
