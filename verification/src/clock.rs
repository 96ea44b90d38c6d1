//! Client order identifiers taken from the system clock.

use std::time::{Duration, SystemTime, SystemTimeError, UNIX_EPOCH};

use vstd::prelude::*;

verus! {

/// `std::time::SystemTime`, opaque: a reading of the system clock.
#[verifier::external_type_specification]
#[verifier::external_body]
pub struct ExSystemTime(SystemTime);

/// `std::time::SystemTimeError`, opaque: the clock stands before the reference time.
#[verifier::external_type_specification]
#[verifier::external_body]
pub struct ExSystemTimeError(SystemTimeError);

/// `std::time::SystemTime::now`. Nothing is claimed of the reading: it depends on the machine.
pub assume_specification[ SystemTime::now ]() -> SystemTime;

/// `std::time::Duration::as_millis`. Nothing is claimed of the number: a `Duration` is opaque
/// here, and the only one that is ever measured comes from the system clock.
pub assume_specification[ Duration::as_millis ](duration: &Duration) -> u128;

/// `std::time::SystemTime::duration_since`, measured from `UNIX_EPOCH`. Nothing is claimed of
/// the outcome: it depends on how the machine's clock is set.
#[verifier::external_body]
pub(crate) fn since_unix_epoch(time: &SystemTime) -> Result<Duration, SystemTimeError> {
    time.duration_since(UNIX_EPOCH)
}

/// The identifier that a count of milliseconds stands for.
pub open spec fn id_of_millis(millis: u128) -> i64 {
    (millis % (i64::MAX as u128)) as i64
}

/// Turns a count of milliseconds into a client order identifier.
pub fn client_order_id_from_millis(millis: u128) -> (id: i64)
    ensures
        id == id_of_millis(millis),
        id == millis % (i64::MAX as u128),
        0 <= id < i64::MAX,
{
    (millis % (i64::MAX as u128)) as i64
}

/// Draws a client order identifier from the system clock: the milliseconds since the Unix
/// epoch, or 0 where the clock stands before it.
pub fn generate_client_order_id() -> (id: i64)
    ensures
        drawn_from_clock(id),
        0 <= id < i64::MAX,
{
    let now = SystemTime::now();
    let elapsed = since_unix_epoch(&now);
    let id: i64 = match &elapsed {
        Ok(duration) => client_order_id_from_millis(duration.as_millis()),
        Err(_) => client_order_id_from_millis(0),
    };
    id
}

/// What an identifier is, given how far past the Unix epoch a reading of the clock lies: the
/// milliseconds that have passed stand for it, or none where the reading lies before the epoch.
pub open spec fn id_of_elapsed(elapsed: Result<Duration, SystemTimeError>, id: i64) -> bool {
    match elapsed {
        Ok(duration) => exists|millis: u128|
            #![trigger id_of_millis(millis)]
            call_ensures(Duration::as_millis, (&duration,), millis) && id == id_of_millis(millis),
        Err(_) => id == id_of_millis(0),
    }
}

/// Whether an identifier is what a reading of the system clock came to: `SystemTime::now` gave
/// the reading, and the identifier follows from how far past the Unix epoch it lies.
pub closed spec fn drawn_from_clock(id: i64) -> bool {
    exists|now: SystemTime, elapsed: Result<Duration, SystemTimeError>|
        #![trigger call_ensures(since_unix_epoch, (&now,), elapsed)]
        call_ensures(SystemTime::now, (), now) && call_ensures(since_unix_epoch, (&now,), elapsed)
            && id_of_elapsed(elapsed, id)
}

/// An identifier made from a count of milliseconds is that count, as long as it fits, and differs
/// from it by full turns of the identifier range otherwise.
pub proof fn identifiers_count_milliseconds(millis: u128, id: i64)
    requires
        call_ensures(client_order_id_from_millis, (millis,), id),
    ensures
        millis < i64::MAX ==> id == millis,
        0 <= id < i64::MAX,
        exists|turns: int| millis == id + #[trigger] (turns * i64::MAX),
{
    let range = i64::MAX as int;
    vstd::arithmetic::div_mod::lemma_fundamental_div_mod(millis as int, range);
    assert((millis as int / range) * range == range * (millis as int / range)) by (nonlinear_arith);
    assert(millis == id + (millis as int / range) * i64::MAX);
}

/// An identifier that was drawn comes from one reading of the system clock: it is what the
/// milliseconds since the Unix epoch come to in the identifier range, and 0 only stands for a
/// reading that lies before the epoch or that comes to 0.
pub(crate) proof fn drawn_identifiers_read_the_clock(id: i64)
    requires
        drawn_from_clock(id),
    ensures
        exists|now: SystemTime, elapsed: Result<Duration, SystemTimeError>|
            #![trigger call_ensures(since_unix_epoch, (&now,), elapsed)]
            {
                &&& call_ensures(SystemTime::now, (), now)
                &&& call_ensures(since_unix_epoch, (&now,), elapsed)
                &&& elapsed matches Ok(duration) ==> exists|millis: u128| #[trigger]
                    call_ensures(Duration::as_millis, (&duration,), millis) && id == millis % (
                    i64::MAX as u128)
                &&& elapsed is Err ==> id == 0
            },
{
}

} // verus!
