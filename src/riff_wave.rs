use vstd::prelude::*;

verus! {

/// The unsigned value of two bytes read least significant first.
pub open spec fn le16(b0: u8, b1: u8) -> nat {
    b0 as nat + 256 * (b1 as nat)
}

/// The unsigned value of four bytes read least significant first.
pub open spec fn le32(b0: u8, b1: u8, b2: u8, b3: u8) -> nat {
    le16(b0, b1) + 65536 * le16(b2, b3)
}

/// The little-endian `u16` that starts at `i` in `b`.
pub open spec fn u16_at(b: Seq<u8>, i: int) -> nat {
    le16(b[i], b[i + 1])
}

/// The little-endian `u32` that starts at `i` in `b`.
pub open spec fn u32_at(b: Seq<u8>, i: int) -> nat {
    le32(b[i], b[i + 1], b[i + 2], b[i + 3])
}

/// The two's-complement value of a little-endian 16-bit sample.
pub open spec fn le16_signed(b0: u8, b1: u8) -> int {
    let u = le16(b0, b1);
    if u >= 32768 {
        u - 65536
    } else {
        u as int
    }
}

/// "RIFF"
pub open spec fn riff_tag() -> Seq<u8> {
    seq![0x52u8, 0x49u8, 0x46u8, 0x46u8]
}

/// "WAVE"
pub open spec fn wave_tag() -> Seq<u8> {
    seq![0x57u8, 0x41u8, 0x56u8, 0x45u8]
}

/// "fmt "
pub open spec fn fmt_tag() -> Seq<u8> {
    seq![0x66u8, 0x6du8, 0x74u8, 0x20u8]
}

/// "data"
pub open spec fn data_tag() -> Seq<u8> {
    seq![0x64u8, 0x61u8, 0x74u8, 0x61u8]
}

/// Encoding of the samples. Only linear PCM is supported.
#[derive(Clone, Copy, Debug, PartialEq, Eq, Structural)]
pub enum AudioFormat {
    PCM,
}

impl AudioFormat {
    /// The name under which the format is shown.
    pub fn name(&self) -> (r: &'static str)
        ensures
            r@ == "PCM"@,
    {
        match self {
            AudioFormat::PCM => "PCM",
        }
    }
}

/// Number of interleaved channels in the sample data.
#[derive(Clone, Copy, Debug, PartialEq, Eq, Structural)]
pub enum Channels {
    Mono,
    Stereo,
}

impl Channels {
    /// The name under which the channel layout is shown.
    pub fn name(&self) -> (r: &'static str)
        ensures
            r@ == (match self {
                Channels::Mono => "Mono"@,
                Channels::Stereo => "Stereo"@,
            }),
    {
        match self {
            Channels::Mono => "Mono",
            Channels::Stereo => "Stereo",
        }
    }
}

/// Why a byte sequence is not a supported RIFF/WAVE container.
#[derive(Clone, Copy, Debug, PartialEq, Eq, Structural)]
pub enum WaveError {
    /// The bytes end inside a header, a sub-chunk or the format record.
    Truncated,
    /// The container does not start with "RIFF".
    UnsupportedChunkId,
    /// The RIFF form type is not "WAVE".
    UnsupportedFormat,
    /// A sub-chunk id is not valid UTF-8.
    InvalidSubChunkId,
    /// The format record names an encoding other than PCM.
    UnsupportedAudioFormat(u16),
    /// The format record names a channel count other than 1 or 2.
    UnsupportedChannels(u16),
    /// Sample conversion was asked for a bit depth other than 16.
    UnsupportedBitsPerSample(u16),
    /// No "fmt " sub-chunk was found.
    MissingFormat,
    /// No "data" sub-chunk was found.
    MissingData,
}

/// The "fmt " record of a WAVE container.
#[derive(Clone, Copy, Debug, PartialEq, Eq, Structural)]
pub struct RiffWaveFormat {
    pub audio_format: AudioFormat,
    pub num_channels: Channels,
    /// Samples per second of each channel.
    pub sample_rate: u32,
    /// Average bytes per second.
    pub byte_rate: u32,
    /// Bytes per sample frame, all channels together.
    pub block_align: u16,
    /// Bits per sample of one channel.
    pub bits_per_sample: u16,
}

/// Decoding of a "fmt " payload.
pub open spec fn parse_format(p: Seq<u8>) -> Result<RiffWaveFormat, WaveError> {
    if p.len() < 16 {
        Err(WaveError::Truncated)
    } else if u16_at(p, 0) != 1 {
        Err(WaveError::UnsupportedAudioFormat(u16_at(p, 0) as u16))
    } else if u16_at(p, 2) != 1 && u16_at(p, 2) != 2 {
        Err(WaveError::UnsupportedChannels(u16_at(p, 2) as u16))
    } else {
        Ok(
            RiffWaveFormat {
                audio_format: AudioFormat::PCM,
                num_channels: if u16_at(p, 2) == 1 {
                    Channels::Mono
                } else {
                    Channels::Stereo
                },
                sample_rate: u32_at(p, 4) as u32,
                byte_rate: u32_at(p, 8) as u32,
                block_align: u16_at(p, 12) as u16,
                bits_per_sample: u16_at(p, 14) as u16,
            },
        )
    }
}

/// What a scan that has reached its end reports, given the last "fmt " and "data" seen.
pub open spec fn finish_scan(fmt: Option<RiffWaveFormat>, data: Option<Seq<u8>>) -> Result<
    (RiffWaveFormat, Seq<u8>),
    WaveError,
> {
    match fmt {
        None => Err(WaveError::MissingFormat),
        Some(f) => match data {
            None => Err(WaveError::MissingData),
            Some(d) => Ok((f, d)),
        },
    }
}

/// Scan of the sub-chunks from `offset` on. Each sub-chunk is an id of four bytes,
/// a little-endian `u32` length, and that many bytes of payload. A later "fmt " or
/// "data" replaces an earlier one; other ids are skipped; the scan ends at the first
/// sub-chunk that reaches the end of the bytes.
pub open spec fn scan_chunks(
    b: Seq<u8>,
    offset: nat,
    fmt: Option<RiffWaveFormat>,
    data: Option<Seq<u8>>,
) -> Result<(RiffWaveFormat, Seq<u8>), WaveError>
    decreases b.len() - offset,
{
    if offset + 8 > b.len() {
        Err(WaveError::Truncated)
    } else if offset + 8 + u32_at(b, offset + 4 as int) > b.len() {
        Err(WaveError::Truncated)
    } else {
        let end: nat = offset + 8 + u32_at(b, offset + 4 as int);
        let id = b.subrange(offset as int, offset + 4 as int);
        let payload = b.subrange(offset + 8 as int, end as int);
        let step: Result<(Option<RiffWaveFormat>, Option<Seq<u8>>), WaveError> = if id
            == fmt_tag() {
            match parse_format(payload) {
                Ok(f) => Ok((Some(f), data)),
                Err(e) => Err(e),
            }
        } else if id == data_tag() {
            Ok((fmt, Some(payload)))
        } else if vstd::utf8::valid_utf8(id) {
            Ok((fmt, data))
        } else {
            Err(WaveError::InvalidSubChunkId)
        };
        match step {
            Err(e) => Err(e),
            Ok((f, d)) => if end >= b.len() {
                finish_scan(f, d)
            } else {
                scan_chunks(b, end, f, d)
            },
        }
    }
}

/// Decoding of a whole container into its RIFF size field, its format and its sample data.
pub open spec fn parse_wave(b: Seq<u8>) -> Result<(u32, RiffWaveFormat, Seq<u8>), WaveError> {
    if b.len() < 12 {
        Err(WaveError::Truncated)
    } else if b.subrange(0, 4) != riff_tag() {
        Err(WaveError::UnsupportedChunkId)
    } else if b.subrange(8, 12) != wave_tag() {
        Err(WaveError::UnsupportedFormat)
    } else {
        match scan_chunks(b, 12, None, None) {
            Ok((f, d)) => Ok((u32_at(b, 4) as u32, f, d)),
            Err(e) => Err(e),
        }
    }
}

/// Decoding depends on the bytes alone: decoding equal bytes twice gives the same
/// container, or the same error.
pub proof fn lemma_decode_deterministic(a: Seq<u8>, b: Seq<u8>)
    requires
        a == b,
    ensures
        parse_wave(a) == parse_wave(b),
{
}

/// Reads a little-endian `u32`.
pub fn as_u32_le(array: &[u8; 4]) -> (r: u32)
    ensures
        r as nat == le32(array@[0], array@[1], array@[2], array@[3]),
{
    let b0 = array[0] as u32;
    let b1 = array[1] as u32;
    let b2 = array[2] as u32;
    let b3 = array[3] as u32;
    b0 + b1 * 256 + b2 * 65536 + b3 * 16777216
}

/// Reads a little-endian `u16`.
pub fn as_u16_le(array: &[u8; 2]) -> (r: u16)
    ensures
        r as nat == le16(array@[0], array@[1]),
{
    (array[0] as u16) + (array[1] as u16) * 256
}

/// Relies on std::str::from_utf8: it accepts exactly the valid UTF-8 byte sequences.
#[verifier::external_body]
fn is_utf8(b: &[u8; 4]) -> (r: bool)
    ensures
        r == vstd::utf8::valid_utf8(b@),
{
    std::str::from_utf8(b).is_ok()
}

fn bytes4(bytes: &Vec<u8>, pos: usize) -> (r: [u8; 4])
    requires
        pos + 4 <= bytes@.len(),
    ensures
        r@ == bytes@.subrange(pos as int, pos + 4),
{
    let n = bytes.len();
    assert(pos + 3 < n);
    let r = [bytes[pos], bytes[pos + 1], bytes[pos + 2], bytes[pos + 3]];
    assert(r@ =~= bytes@.subrange(pos as int, pos + 4));
    r
}

fn u16_at_pos(bytes: &Vec<u8>, pos: usize) -> (r: u16)
    requires
        pos + 2 <= bytes@.len(),
    ensures
        r as nat == u16_at(bytes@, pos as int),
{
    let n = bytes.len();
    assert(pos + 1 < n);
    as_u16_le(&[bytes[pos], bytes[pos + 1]])
}

fn u32_at_pos(bytes: &Vec<u8>, pos: usize) -> (r: u32)
    requires
        pos + 4 <= bytes@.len(),
    ensures
        r as nat == u32_at(bytes@, pos as int),
{
    as_u32_le(&bytes4(bytes, pos))
}

fn copy_range(bytes: &Vec<u8>, start: usize, end: usize) -> (r: Vec<u8>)
    requires
        start <= end <= bytes@.len(),
    ensures
        r@ == bytes@.subrange(start as int, end as int),
{
    let mut r: Vec<u8> = Vec::with_capacity(end - start);
    let mut i: usize = start;
    while i < end
        invariant
            start <= i <= end <= bytes@.len(),
            r@ == bytes@.subrange(start as int, i as int),
        decreases end - i,
    {
        r.push(bytes[i]);
        assert(r@ =~= bytes@.subrange(start as int, i + 1));
        i += 1;
    }
    r
}

impl RiffWaveFormat {
    /// Decodes a "fmt " payload.
    fn new(bytes: Vec<u8>) -> (r: Result<Self, WaveError>)
        ensures
            r == parse_format(bytes@),
    {
        if bytes.len() < 16 {
            return Err(WaveError::Truncated);
        }
        let audio_format = u16_at_pos(&bytes, 0);
        if audio_format != 1 {
            return Err(WaveError::UnsupportedAudioFormat(audio_format));
        }
        let channels = u16_at_pos(&bytes, 2);
        let num_channels = if channels == 1 {
            Channels::Mono
        } else if channels == 2 {
            Channels::Stereo
        } else {
            return Err(WaveError::UnsupportedChannels(channels));
        };
        Ok(
            RiffWaveFormat {
                audio_format: AudioFormat::PCM,
                num_channels,
                sample_rate: u32_at_pos(&bytes, 4),
                byte_rate: u32_at_pos(&bytes, 8),
                block_align: u16_at_pos(&bytes, 12),
                bits_per_sample: u16_at_pos(&bytes, 14),
            },
        )
    }
}

/// A decoded RIFF/WAVE container.
pub struct RiffWave {
    /// The RIFF chunk size field, as stored.
    pub size: u32,
    pub format: RiffWaveFormat,
    /// The payload of the "data" sub-chunk.
    pub data: Vec<u8>,
}

/// The signed 16-bit samples held in `b`, two bytes each, least significant first;
/// a trailing odd byte is ignored.
pub open spec fn pcm16_decode(b: Seq<u8>) -> Seq<int> {
    Seq::new(b.len() / 2, |i: int| le16_signed(b[2 * i], b[2 * i + 1]))
}

/// Decodes little-endian signed 16-bit samples; a trailing odd byte is ignored.
pub fn pcm16_samples(array: &[u8]) -> (r: Vec<i16>)
    ensures
        r@.len() == pcm16_decode(array@).len(),
        forall|i: int| 0 <= i < r@.len() ==> r@[i] as int == #[trigger] pcm16_decode(array@)[i],
{
    let n = array.len();
    let mut r: Vec<i16> = Vec::with_capacity(n / 2);
    let mut i: usize = 0;
    while i < n / 2
        invariant
            n == array@.len(),
            i <= n / 2,
            r@.len() == i,
            forall|j: int| 0 <= j < i ==> r@[j] as int == #[trigger] pcm16_decode(array@)[j],
        decreases n / 2 - i,
    {
        let low = array[2 * i];
        let high = array[2 * i + 1];
        let u = (low as u32) + (high as u32) * 256;
        let sample: i16 = if u >= 32768 {
            (u as i32 - 65536) as i16
        } else {
            u as i16
        };
        r.push(sample);
        i += 1;
    }
    r
}

impl RiffWave {
    /// Decodes a RIFF/WAVE container.
    pub fn new(bytes: Vec<u8>) -> (r: Result<Self, WaveError>)
        ensures
            match r {
                Ok(w) => parse_wave(bytes@) == Ok::<_, WaveError>(w@),
                Err(e) => parse_wave(bytes@) == Err::<(u32, RiffWaveFormat, Seq<u8>), _>(e),
            },
    {
        let len = bytes.len();
        if len < 12 {
            return Err(WaveError::Truncated);
        }
        let chunk_id = bytes4(&bytes, 0);
        if !(chunk_id[0] == 0x52 && chunk_id[1] == 0x49 && chunk_id[2] == 0x46 && chunk_id[3]
            == 0x46) {
            return Err(WaveError::UnsupportedChunkId);
        }
        assert(bytes@.subrange(0, 4) =~= riff_tag());
        let chunk_size = u32_at_pos(&bytes, 4);
        let form = bytes4(&bytes, 8);
        if !(form[0] == 0x57 && form[1] == 0x41 && form[2] == 0x56 && form[3] == 0x45) {
            return Err(WaveError::UnsupportedFormat);
        }
        assert(bytes@.subrange(8, 12) =~= wave_tag());
        let mut offset: usize = 12;
        let mut fmt: Option<RiffWaveFormat> = None;
        let mut data: Option<Vec<u8>> = None;
        loop
            invariant
                len == bytes@.len(),
                12 <= offset <= len,
                bytes@.subrange(0, 4) == riff_tag(),
                bytes@.subrange(8, 12) == wave_tag(),
                chunk_size as nat == u32_at(bytes@, 4),
                scan_chunks(bytes@, 12, None, None) == scan_chunks(
                    bytes@,
                    offset as nat,
                    fmt,
                    opt_view(data),
                ),
            ensures
                bytes@.subrange(0, 4) == riff_tag(),
                bytes@.subrange(8, 12) == wave_tag(),
                chunk_size as nat == u32_at(bytes@, 4),
                scan_chunks(bytes@, 12, None, None) == finish_scan(fmt, opt_view(data)),
            decreases len - offset,
        {
            if offset > len - 8 {
                return Err(WaveError::Truncated);
            }
            let size = u32_at_pos(&bytes, offset + 4);
            if size as usize > len - offset - 8 {
                return Err(WaveError::Truncated);
            }
            let end = offset + 8 + size as usize;
            let id = bytes4(&bytes, offset);
            let ghost fmt_before = fmt;
            let ghost data_before = opt_view(data);
            if id[0] == 0x66 && id[1] == 0x6d && id[2] == 0x74 && id[3] == 0x20 {
                assert(id@ =~= fmt_tag());
                match RiffWaveFormat::new(copy_range(&bytes, offset + 8, end)) {
                    Ok(f) => {
                        fmt = Some(f);
                    },
                    Err(e) => {
                        return Err(e);
                    },
                }
            } else if id[0] == 0x64 && id[1] == 0x61 && id[2] == 0x74 && id[3] == 0x61 {
                assert(id@ =~= data_tag());
                data = Some(copy_range(&bytes, offset + 8, end));
            } else {
                assert(id@ != fmt_tag() && id@ != data_tag()) by {
                    assert(fmt_tag()[0] == 0x66u8 && fmt_tag()[1] == 0x6du8 && fmt_tag()[2] == 0x74u8
                        && fmt_tag()[3] == 0x20u8);
                    assert(data_tag()[0] == 0x64u8 && data_tag()[1] == 0x61u8 && data_tag()[2]
                        == 0x74u8 && data_tag()[3] == 0x61u8);
                }
                if !is_utf8(&id) {
                    return Err(WaveError::InvalidSubChunkId);
                }
            }
            assert(scan_chunks(bytes@, offset as nat, fmt_before, data_before) == if end >= len {
                finish_scan(fmt, opt_view(data))
            } else {
                scan_chunks(bytes@, end as nat, fmt, opt_view(data))
            });
            if end >= len {
                break;
            }
            offset = end;
        }
        match fmt {
            None => Err(WaveError::MissingFormat),
            Some(format) => match data {
                None => Err(WaveError::MissingData),
                Some(data) => Ok(RiffWave { size: chunk_size, format, data }),
            },
        }
    }

    /// The sample data as signed 16-bit samples; only a 16-bit format can be converted.
    pub fn data_as_i16(&self) -> (r: Result<Vec<i16>, WaveError>)
        ensures
            self.format.bits_per_sample == 16 ==> (r matches Ok(s) && s@.len() == pcm16_decode(
                self.data@,
            ).len() && forall|i: int|
                0 <= i < s@.len() ==> s@[i] as int == #[trigger] pcm16_decode(self.data@)[i]),
            self.format.bits_per_sample != 16 ==> r == Err::<Vec<i16>, _>(
                WaveError::UnsupportedBitsPerSample(self.format.bits_per_sample),
            ),
    {
        match self.format.audio_format {
            AudioFormat::PCM => {
                if self.format.bits_per_sample == 16 {
                    Ok(pcm16_samples(self.data.as_slice()))
                } else {
                    Err(WaveError::UnsupportedBitsPerSample(self.format.bits_per_sample))
                }
            },
        }
    }
}

/// The contents of an optional byte vector.
pub open spec fn opt_view(v: Option<Vec<u8>>) -> Option<Seq<u8>> {
    match v {
        Some(v) => Some(v@),
        None => None,
    }
}

impl View for RiffWave {
    type V = (u32, RiffWaveFormat, Seq<u8>);

    open spec fn view(&self) -> (u32, RiffWaveFormat, Seq<u8>) {
        (self.size, self.format, self.data@)
    }
}

} // verus!
