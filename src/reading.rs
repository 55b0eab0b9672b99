use vstd::prelude::*;

verus! {

/// One persisted sensor measurement.
///
/// The measured value is kept as the IEEE-754 bit pattern of the
/// parts-per-million figure, so that it can be stored and compared exactly.
#[derive(Clone, Copy, Debug, PartialEq, Eq, Structural)]
pub struct TDS {
    pub id: i32,
    pub tds_ppm_bits: u64,
    pub timestamp: i64,
}

/// Relies on rand::random: an identifier drawn at random; nothing is known of its value.
#[verifier::external_body]
fn random_id() -> (r: i32) {
    rand::random::<i32>()
}

/// Relies on chrono::Local::now and DateTime::timestamp: the wall clock in
/// seconds since the epoch, never before it (chrono measures the system time
/// as a duration since the epoch).
#[verifier::external_body]
fn now_seconds() -> (r: i64)
    ensures
        r >= 0,
{
    chrono::Local::now().timestamp()
}

/// A reading of the given value with a fresh random identifier, observed now.
pub fn new_reading(tds_ppm_bits: u64) -> (r: TDS)
    ensures
        r.tds_ppm_bits == tds_ppm_bits,
        r.timestamp >= 0,
{
    let id = random_id();
    let timestamp = now_seconds();
    TDS { id, tds_ppm_bits, timestamp }
}

} // verus!
