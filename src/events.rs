use vstd::prelude::*;

verus! {

/// Nanoseconds that `len` samples last at `sample_rate` samples per second, rounded down.
pub open spec fn duration_ns(len: nat, sample_rate: nat) -> nat
    recommends
        sample_rate > 0,
{
    len * 1_000_000_000 / sample_rate
}

/// The start of a chunk that became available at `now_ns` and lasts `duration`
/// nanoseconds; a duration longer than `now_ns` starts at 0.
pub open spec fn start_ns(now_ns: nat, duration: nat) -> nat {
    if duration <= now_ns {
        (now_ns - duration) as nat
    } else {
        0
    }
}

/// Events carried from sample producers to their consumers.
#[derive(Clone, Debug)]
pub enum GwaggliEvent<S> {
    /// A buffer of captured samples, `sample_rate` samples per second, that started at
    /// `timestamp` nanoseconds after the Unix epoch and lasts `duration` nanoseconds.
    AudioChunk { chunk: Vec<S>, sample_rate: u32, timestamp: u128, duration: u128 },
}

impl<S> GwaggliEvent<S> {
    /// The duration of the chunk is the one its samples and rate give.
    pub open spec fn is_consistent(&self) -> bool {
        match self {
            GwaggliEvent::AudioChunk { chunk, sample_rate, duration, .. } => {
                &&& *sample_rate > 0
                &&& *duration as nat == duration_ns(chunk@.len(), *sample_rate as nat)
            },
        }
    }

    /// An audio chunk event whose duration is derived from its samples and rate.
    pub fn audio_chunk(chunk: Vec<S>, sample_rate: u32, timestamp: u128) -> (r: Self)
        requires
            sample_rate > 0,
        ensures
            r.is_consistent(),
            r matches GwaggliEvent::AudioChunk { chunk: c, sample_rate: s, timestamp: t, .. } && c@
                == chunk@ && s == sample_rate && t == timestamp,
    {
        let duration = get_duration(chunk.as_slice(), sample_rate);
        GwaggliEvent::AudioChunk { chunk, sample_rate, timestamp, duration }
    }
}

/// Nanoseconds that `data` lasts at `sample_rate` samples per second, rounded down.
pub fn get_duration<S>(data: &[S], sample_rate: u32) -> (r: u128)
    requires
        sample_rate > 0,
    ensures
        r as nat == duration_ns(data@.len(), sample_rate as nat),
{
    let len = data.len() as u128;
    assert(len <= 0xffff_ffff_ffff_ffffu128);
    len * 1_000_000_000 / (sample_rate as u128)
}

/// The start of a chunk of `data` that became available at `now_ns`.
pub fn timestamp_at<S>(now_ns: u128, data: &[S], sample_rate: u32) -> (r: u128)
    requires
        sample_rate > 0,
    ensures
        r as nat == start_ns(now_ns as nat, duration_ns(data@.len(), sample_rate as nat)),
{
    let duration = get_duration(data, sample_rate);
    if duration <= now_ns {
        now_ns - duration
    } else {
        0
    }
}

/// The start of a chunk of `data` that has just become available, read from the
/// system clock.
pub fn get_timestamp<S>(data: &[S], sample_rate: u32) -> (r: u128)
    requires
        sample_rate > 0,
    ensures
        exists|now: u128|
            r as nat == start_ns(now as nat, duration_ns(data@.len(), sample_rate as nat)),
{
    let now = now_in_ns();
    timestamp_at(now, data, sample_rate)
}

/// Nanoseconds since the Unix epoch. Relies on std::time::SystemTime::now; a clock
/// set before the epoch reads as 0.
#[verifier::external_body]
pub fn now_in_ns() -> u128 {
    std::time::SystemTime::now().duration_since(std::time::UNIX_EPOCH).map_or(0, |d| d.as_nanos())
}

} // verus!
