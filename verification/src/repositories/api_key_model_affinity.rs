//! Keys that stay with one provider of a model for a while.
use crate::digest::sha256;
use crate::ids::Uuid;
use crate::time::Timestamp;
use vstd::arithmetic::div_mod::{lemma_div_denominator, lemma_div_is_ordered};
use vstd::arithmetic::power::{lemma_pow0, lemma_pow_positive, pow};
use vstd::prelude::*;
use vstd::utf8::*;

verus! {

/// The number that bytes write, most significant byte first.
pub open spec fn big_endian(bytes: Seq<u8>) -> int
    decreases bytes.len(),
{
    if bytes.len() == 0 {
        0
    } else {
        big_endian(bytes.drop_last()) * 256 + bytes.last()
    }
}

/// The bytes that stand for a key and a model: those of the key, a zero, and
/// those of the name of the model.
pub open spec fn lock_bytes(api_key_id: Uuid, model_name: Seq<char>) -> Seq<u8> {
    crate::ids::uuid_bytes(api_key_id) + seq![0u8] + encode_utf8(model_name)
}

/// The number of locks that there are.
pub const LOCK_COUNT: u64 = 0x8000_0000_0000_0000;

/// The lock of a key and a model: the first eight bytes of the hash, without
/// their highest bit.
pub open spec fn lock_of(digest: Seq<u8>) -> int {
    big_endian(digest.take(8)) % LOCK_COUNT as int
}

/// The lock that a hash stands for.
pub fn lock_from_digest(digest: &[u8; 32]) -> (r: i64)
    ensures
        r == lock_of(digest@),
        r >= 0,
{
    let mut value: i64 = (digest[0] % 128) as i64;
    let mut i: usize = 1;
    let ghost high = (digest@[0] / 128) as int;
    proof {
        assert(digest@.take(1).drop_last() =~= seq![]);
        assert(big_endian(seq![]) == 0);
        assert(big_endian(digest@.take(1)) == digest@[0]);
    }
    let ghost mut weight: int = 1;
    while i < 8
        invariant
            1 <= i <= 8,
            high == digest@[0] / 128,
            0 <= high <= 1,
            i == 1 ==> weight == 1,
            i == 2 ==> weight == 0x100,
            i == 3 ==> weight == 0x1_0000,
            i == 4 ==> weight == 0x100_0000,
            i == 5 ==> weight == 0x1_0000_0000,
            i == 6 ==> weight == 0x100_0000_0000,
            i == 7 ==> weight == 0x1_0000_0000_0000,
            i == 8 ==> weight == 0x100_0000_0000_0000,
            0 <= value < 128 * weight,
            big_endian(digest@.take(i as int)) == value + 128 * weight * high,
        decreases 8 - i,
    {
        proof {
            assert(digest@.take(i + 1).drop_last() =~= digest@.take(i as int));
            assert(digest@.take(i + 1).last() == digest@[i as int]);
            assert(128 * (weight * 256) * high == 128 * weight * high * 256) by (nonlinear_arith);
        }
        value = value * 256 + digest[i] as i64;
        proof {
            weight = weight * 256;
        }
        i = i + 1;
    }
    proof {
        assert(big_endian(digest@.take(8)) == value + LOCK_COUNT * high);
        if high == 0 {
            assert(lock_of(digest@) == value);
        } else {
            assert(high == 1);
            assert(lock_of(digest@) == value);
        }
    }
    value
}

/// The lock under which a key is bound to a provider of a model.
pub fn advisory_lock_key(api_key_id: Uuid, model_name: &str) -> (r: i64)
    ensures
        r == lock_of(crate::digest::sha256_of(lock_bytes(api_key_id, model_name@))),
        r >= 0,
{
    let mut bytes: Vec<u8> = api_key_id.to_bytes();
    bytes.push(0);
    let name = model_name.as_bytes();
    let ghost prefix = bytes@;
    let mut i: usize = 0;
    while i < name.len()
        invariant
            i <= name@.len(),
            bytes@ == prefix + name@.take(i as int),
        decreases name.len() - i,
    {
        bytes.push(name[i]);
        proof {
            assert(name@.take(i + 1) =~= name@.take(i as int).push(name@[i as int]));
        }
        i = i + 1;
    }
    assert(name@.take(name@.len() as int) =~= name@);
    assert(bytes@ =~= lock_bytes(api_key_id, model_name@));
    let digest = sha256(bytes.as_slice());
    lock_from_digest(&digest)
}

/// What happens once the lock is held.
#[derive(Debug, Clone)]
pub enum BindStep {
    /// The key is bound already: use that provider.
    Use(String),
    /// Choose a provider.
    Select,
}

/// Decides whether a provider must be chosen.
pub fn bind(active: Option<String>) -> (r: BindStep)
    ensures
        match active {
            Some(url) => r == BindStep::Use(url),
            None => r is Select,
        },
{
    match active {
        Some(url) => BindStep::Use(url),
        None => BindStep::Select,
    }
}

/// A key that is bound to a provider.
#[derive(Debug, Clone)]
pub struct Binding {
    pub provider_url: String,
    pub expires_at: Timestamp,
}

/// The seconds of the longest time that can be added to an instant.
pub const MAX_TTL_SECONDS: u64 = 9_223_372_036_854_775;

/// The nanoseconds of the longest time that can be added to an instant.
pub const MAX_TTL_NANOS: u32 = 807_000_000;

/// Whether a time can be added to an instant at all.
pub open spec fn ttl_valid(seconds: u64, nanos: u32) -> bool {
    seconds < MAX_TTL_SECONDS || (seconds == MAX_TTL_SECONDS && nanos <= MAX_TTL_NANOS)
}

/// The instant that comes a time after another.
pub open spec fn expiry_instant(now: Timestamp, seconds: u64, nanos: u32) -> int {
    now.instant() + seconds * crate::time::NANOS_PER_SECOND + nanos
}

/// When a binding made now ends.
pub fn binding_expiry(now: Timestamp, ttl_seconds: u64, ttl_nanos: u32) -> (r: Result<
    Timestamp,
    String,
>)
    requires
        now.well_formed(),
        ttl_nanos < crate::time::NANOS_PER_SECOND,
        ttl_valid(ttl_seconds, ttl_nanos) ==> expiry_instant(now, ttl_seconds, ttl_nanos) < (
        crate::time::MAX_SECONDS + 1) * crate::time::NANOS_PER_SECOND,
    ensures
        match r {
            Ok(expires_at) => {
                &&& ttl_valid(ttl_seconds, ttl_nanos)
                &&& expires_at.well_formed()
                &&& expires_at.instant() == expiry_instant(now, ttl_seconds, ttl_nanos)
            },
            Err(message) => !ttl_valid(ttl_seconds, ttl_nanos) && message@
                == "Invalid affinity TTL"@,
        },
{
    if ttl_seconds > MAX_TTL_SECONDS || (ttl_seconds == MAX_TTL_SECONDS && ttl_nanos
        > MAX_TTL_NANOS) {
        return Err("Invalid affinity TTL".to_owned());
    }
    let nanos: u32 = now.nanos + ttl_nanos;
    if nanos >= crate::time::NANOS_PER_SECOND {
        Ok(
            Timestamp {
                seconds: now.seconds + ttl_seconds as i64 + 1,
                nanos: nanos - crate::time::NANOS_PER_SECOND,
            },
        )
    } else {
        Ok(Timestamp { seconds: now.seconds + ttl_seconds as i64, nanos })
    }
}

/// The binding that a choice of a provider leads to; where none was chosen,
/// nothing is stored.
pub fn choose_provider(
    selected: &Option<String>,
    now: Timestamp,
    ttl_seconds: u64,
    ttl_nanos: u32,
) -> (r: Result<Option<Binding>, String>)
    requires
        now.well_formed(),
        ttl_nanos < crate::time::NANOS_PER_SECOND,
        selected is Some && ttl_valid(ttl_seconds, ttl_nanos) ==> expiry_instant(
            now,
            ttl_seconds,
            ttl_nanos,
        ) < (crate::time::MAX_SECONDS + 1) * crate::time::NANOS_PER_SECOND,
    ensures
        match r {
            Ok(None) => selected is None,
            Ok(Some(binding)) => {
                &&& *selected == Some(binding.provider_url)
                &&& ttl_valid(ttl_seconds, ttl_nanos)
                &&& binding.expires_at.well_formed()
                &&& binding.expires_at.instant() == expiry_instant(now, ttl_seconds, ttl_nanos)
            },
            Err(message) => {
                &&& selected is Some
                &&& !ttl_valid(ttl_seconds, ttl_nanos)
                &&& message@ == "Invalid affinity TTL"@
            },
        },
{
    match selected {
        None => Ok(None),
        Some(url) => match binding_expiry(now, ttl_seconds, ttl_nanos) {
            Ok(expires_at) => Ok(Some(Binding { provider_url: url.clone(), expires_at })),
            Err(message) => Err(message),
        },
    }
}

/// What a caller is answered once the lock was given back, or could not be: the
/// first failure counts.
pub fn release(
    result: Result<Option<String>, String>,
    unlocked: bool,
) -> (r: Result<Option<String>, String>)
    ensures
        unlocked || result is Err ==> r == result,
        !unlocked && result is Ok ==> (r matches Err(message) && message@
            == "Failed to release api key model affinity advisory lock"@),
{
    if unlocked {
        return result;
    }
    match result {
        Ok(_) => Err("Failed to release api key model affinity advisory lock".to_owned()),
        Err(e) => Err(e),
    }
}

/// The lock is the number that the first eight bytes of the hash write, the first
/// one highest, less the highest bit.
pub proof fn law_lock_is_read_from_the_first_bytes(digest: Seq<u8>)
    requires
        digest.len() >= 8,
    ensures
        lock_of(digest) == digest[7] + 0x100 * digest[6] + 0x1_0000 * digest[5] + 0x100_0000
            * digest[4] + 0x1_0000_0000 * digest[3] + 0x100_0000_0000 * digest[2]
            + 0x1_0000_0000_0000 * digest[1] + 0x100_0000_0000_0000 * (digest[0] % 128),
{
    reveal_with_fuel(big_endian, 9);
    let d = digest.take(8);
    let d7 = d.drop_last();
    let d6 = d7.drop_last();
    let d5 = d6.drop_last();
    let d4 = d5.drop_last();
    let d3 = d4.drop_last();
    let d2 = d3.drop_last();
    let d1 = d2.drop_last();
    assert(d1.drop_last().len() == 0);
    assert(big_endian(d1.drop_last()) == 0);
    assert(big_endian(d1) == digest[0]);
    assert(big_endian(d2) == big_endian(d1) * 256 + digest[1]);
    assert(big_endian(d3) == big_endian(d2) * 256 + digest[2]);
    assert(big_endian(d4) == big_endian(d3) * 256 + digest[3]);
    assert(big_endian(d5) == big_endian(d4) * 256 + digest[4]);
    assert(big_endian(d6) == big_endian(d5) * 256 + digest[5]);
    assert(big_endian(d7) == big_endian(d6) * 256 + digest[6]);
    assert(big_endian(d) == big_endian(d7) * 256 + digest[7]);
}

/// The lock stands for the whole identifier, and for the whole name: a key and a
/// model are told apart from any other ones before they are hashed.
pub proof fn law_lock_bytes_hold_key_and_model(api_key_id: Uuid, model_name: Seq<char>)
    ensures
        lock_bytes(api_key_id, model_name).take(16) == crate::ids::uuid_bytes(api_key_id),
        lock_bytes(api_key_id, model_name)[16] == 0,
        lock_bytes(api_key_id, model_name).skip(17) == encode_utf8(model_name),
{
    assert(crate::ids::uuid_bytes(api_key_id).len() == 16);
    assert(lock_bytes(api_key_id, model_name).take(16) =~= crate::ids::uuid_bytes(api_key_id));
    assert(lock_bytes(api_key_id, model_name).skip(17) =~= encode_utf8(model_name));
}

/// A binding ends as many nanoseconds after it is made as its time is long; a
/// time of more than 9223372036854775807 milliseconds is refused.
pub proof fn law_bindings_last_their_time(now: Timestamp, seconds: u64, nanos: u32)
    requires
        nanos < 1_000_000_000,
    ensures
        expiry_instant(now, seconds, nanos) == now.seconds * 1_000_000_000 + now.nanos + seconds
            * 1_000_000_000 + nanos,
        ttl_valid(seconds, nanos) <==> seconds * 1_000_000_000 + nanos
            <= 9_223_372_036_854_775_807_000_000,
{
}

proof fn lemma_leading_bytes(id: Uuid, count: nat)
    requires
        count <= 16,
    ensures
        big_endian(crate::ids::uuid_bytes(id).take(count as int)) == id.value as int / pow(
            256,
            (16 - count) as nat,
        ),
    decreases count,
{
    let bytes = crate::ids::uuid_bytes(id);
    let value = id.value as int;
    if count == 0 {
        lemma_pow0(256);
        reveal_with_fuel(pow, 17);
        assert(pow(256, 16) == u128::MAX + 1);
        assert(value / (u128::MAX + 1) == 0);
    } else {
        let before = (count - 1) as nat;
        lemma_leading_bytes(id, before);
        let place = (16 - count) as nat;
        lemma_pow_positive(256, place);
        reveal(pow);
        assert(pow(256, (place + 1) as nat) == pow(256, place) * 256) by (nonlinear_arith)
            requires
                pow(256, (place + 1) as nat) == 256 * pow(256, place),
        ;
        lemma_div_denominator(value, pow(256, place), 256);
        lemma_div_is_ordered(0, value, pow(256, place));
        assert(bytes.take(count as int).drop_last() =~= bytes.take(before as int));
        assert(bytes.take(count as int).last() == crate::ids::byte_at(id.value, place));
        assert((16 - before) as nat == (place + 1) as nat);
    }
}

/// The bytes of an identifier write its number, the most significant one first.
pub proof fn law_identifier_bytes_write_its_number(id: Uuid)
    ensures
        crate::ids::uuid_bytes(id).len() == 16,
        big_endian(crate::ids::uuid_bytes(id)) == id.value,
{
    lemma_leading_bytes(id, 16);
    lemma_pow0(256);
    assert(crate::ids::uuid_bytes(id).take(16) =~= crate::ids::uuid_bytes(id));
}

/// One byte more makes 256 times the number, and the byte.
pub proof fn law_bytes_are_read_in_order(bytes: Seq<u8>, byte: u8)
    ensures
        big_endian(seq![]) == 0,
        big_endian(bytes.push(byte)) == 256 * big_endian(bytes) + byte,
{
    assert(bytes.push(byte).drop_last() =~= bytes);
}

/// A binding that is there is used; otherwise one is made with the provider that
/// was chosen, until its time is over, or none where none was chosen.
pub proof fn law_bindings_hold_the_chosen_provider(
    url: String,
    now: Timestamp,
    seconds: u64,
    nanos: u32,
    bound: BindStep,
    free: BindStep,
    made: Result<Option<Binding>, String>,
    unmade: Result<Option<Binding>, String>,
)
    requires
        nanos < 1_000_000_000,
        call_ensures(bind, (Some(url),), bound),
        call_ensures(bind, (None::<String>,), free),
        call_ensures(choose_provider, (&Some(url), now, seconds, nanos), made),
        call_ensures(choose_provider, (&None::<String>, now, seconds, nanos), unmade),
    ensures
        bound == BindStep::Use(url),
        free is Select,
        unmade == Ok::<Option<Binding>, String>(None),
        made is Err <==> seconds * 1_000_000_000 + nanos > 9_223_372_036_854_775_807_000_000,
        made matches Err(message) ==> message@ == "Invalid affinity TTL"@,
        made matches Ok(answer) ==> (answer matches Some(binding) && binding.provider_url == url
            && binding.expires_at.well_formed() && binding.expires_at.seconds * 1_000_000_000
            + binding.expires_at.nanos == now.seconds * 1_000_000_000 + now.nanos + seconds
            * 1_000_000_000 + nanos),
{
    law_bindings_last_their_time(now, seconds, nanos);
}

/// Giving the lock back changes no answer; where it cannot be given back, an
/// answer becomes a failure, and a failure stays the one that came first.
pub proof fn law_the_first_failure_counts(
    result: Result<Option<String>, String>,
    given_back: Result<Option<String>, String>,
    kept: Result<Option<String>, String>,
)
    requires
        call_ensures(release, (result, true), given_back),
        call_ensures(release, (result, false), kept),
    ensures
        given_back == result,
        kept is Err,
        result is Err ==> kept == result,
        result is Ok ==> kept->Err_0@
            == "Failed to release api key model affinity advisory lock"@,
{
}

} // verus!
