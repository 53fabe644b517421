use gwaggli::riff_wave::{
    as_u16_le, as_u32_le, pcm16_samples, AudioFormat, Channels, RiffWave, WaveError,
};

fn header(format_tag: u16, channels: u16, bits: u16, data: &[u8]) -> Vec<u8> {
    let mut b = Vec::new();
    b.extend_from_slice(b"RIFF");
    b.extend_from_slice(&(36 + data.len() as u32).to_le_bytes());
    b.extend_from_slice(b"WAVE");
    b.extend_from_slice(b"fmt ");
    b.extend_from_slice(&16u32.to_le_bytes());
    b.extend_from_slice(&format_tag.to_le_bytes());
    b.extend_from_slice(&channels.to_le_bytes());
    b.extend_from_slice(&16000u32.to_le_bytes());
    b.extend_from_slice(&32000u32.to_le_bytes());
    b.extend_from_slice(&2u16.to_le_bytes());
    b.extend_from_slice(&bits.to_le_bytes());
    b.extend_from_slice(b"data");
    b.extend_from_slice(&(data.len() as u32).to_le_bytes());
    b.extend_from_slice(data);
    b
}

fn error_of(bytes: Vec<u8>) -> WaveError {
    match RiffWave::new(bytes) {
        Ok(_) => panic!("expected an error"),
        Err(e) => e,
    }
}

#[test]
fn test_empty_wave_riff_header() {
    let data = b"RIFF\x24\x00\x00\x00WAVE\
    fmt \x10\x00\x00\x00\x01\x00\x01\x00\x80\x3e\x00\x00\x00\x7d\x00\x00\x02\x00\x10\x00\
    data\x00\x00\x00\x00";

    let riff_wave = RiffWave::new(data.to_vec()).unwrap();

    assert_eq!(riff_wave.format.audio_format, AudioFormat::PCM);
    assert_eq!(riff_wave.format.num_channels, Channels::Mono);
    assert_eq!(riff_wave.format.sample_rate, 16000);
    assert_eq!(riff_wave.format.byte_rate, 32000);
    assert_eq!(riff_wave.format.block_align, 2);
    assert_eq!(riff_wave.format.bits_per_sample, 16);
    assert_eq!(riff_wave.data.len(), 0);
}

#[test]
fn minimal_header_decodes_twice_alike() {
    let data = header(1, 1, 16, &[]);
    assert_eq!(data.len(), 44);
    let first = RiffWave::new(data.clone()).unwrap();
    let second = RiffWave::new(data).unwrap();
    assert_eq!(first.size, 36);
    assert_eq!(first.size, second.size);
    assert_eq!(first.format, second.format);
    assert_eq!(first.data, second.data);
    assert_eq!(first.format.sample_rate, 16000);
    assert_eq!(first.format.num_channels, Channels::Mono);
    assert_eq!(first.format.bits_per_sample, 16);
}

#[test]
fn data_chunk_payload_is_kept() {
    let w = RiffWave::new(header(1, 2, 16, &[1, 0, 0xff, 0xff])).unwrap();
    assert_eq!(w.format.num_channels, Channels::Stereo);
    assert_eq!(w.data, vec![1, 0, 0xff, 0xff]);
    assert_eq!(w.data_as_i16().unwrap(), vec![1, -1]);
}

#[test]
fn unknown_chunks_are_skipped() {
    let mut b = header(1, 1, 16, &[7, 0]);
    let mut extra = Vec::new();
    extra.extend_from_slice(b"LIST");
    extra.extend_from_slice(&3u32.to_le_bytes());
    extra.extend_from_slice(&[9, 9, 9]);
    let tail = b.split_off(36);
    b.extend_from_slice(&extra);
    b.extend_from_slice(&tail);
    let w = RiffWave::new(b).unwrap();
    assert_eq!(w.data, vec![7, 0]);
}

#[test]
fn later_data_chunk_replaces_earlier() {
    let mut b = header(1, 1, 16, &[1, 2]);
    b.extend_from_slice(b"data");
    b.extend_from_slice(&2u32.to_le_bytes());
    b.extend_from_slice(&[3, 4]);
    let w = RiffWave::new(b).unwrap();
    assert_eq!(w.data, vec![3, 4]);
}

#[test]
fn short_input_is_truncated() {
    assert_eq!(error_of(b"RIFF\x00\x00".to_vec()), WaveError::Truncated);
    assert_eq!(error_of(b"RIFF\x04\x00\x00\x00WAVE".to_vec()), WaveError::Truncated);
    let mut b = header(1, 1, 16, &[1, 2, 3, 4]);
    b.truncate(b.len() - 1);
    assert_eq!(error_of(b), WaveError::Truncated);
}

#[test]
fn wrong_ids_are_rejected() {
    let mut b = header(1, 1, 16, &[]);
    b[0] = b'X';
    assert_eq!(error_of(b), WaveError::UnsupportedChunkId);
    let mut b = header(1, 1, 16, &[]);
    b[8] = b'X';
    assert_eq!(error_of(b), WaveError::UnsupportedFormat);
    let mut b = header(1, 1, 16, &[]);
    b[36] = 0xff;
    assert_eq!(error_of(b), WaveError::InvalidSubChunkId);
}

#[test]
fn unsupported_format_fields_are_rejected() {
    assert_eq!(error_of(header(3, 1, 16, &[])), WaveError::UnsupportedAudioFormat(3));
    assert_eq!(error_of(header(1, 6, 16, &[])), WaveError::UnsupportedChannels(6));
}

#[test]
fn missing_chunks_are_reported() {
    let b = header(1, 1, 16, &[]);
    let only_fmt = b[..36].to_vec();
    assert_eq!(error_of(only_fmt), WaveError::MissingData);
    let mut only_data = b[..12].to_vec();
    only_data.extend_from_slice(&b[36..]);
    assert_eq!(error_of(only_data), WaveError::MissingFormat);
}

#[test]
fn other_bit_depths_are_not_converted() {
    let w = RiffWave::new(header(1, 1, 8, &[1, 2])).unwrap();
    assert_eq!(w.data_as_i16(), Err(WaveError::UnsupportedBitsPerSample(8)));
}

#[test]
fn little_endian_readers() {
    assert_eq!(as_u32_le(&[0x80, 0x3e, 0x00, 0x00]), 16000);
    assert_eq!(as_u32_le(&[0x01, 0x02, 0x03, 0x04]), 0x04030201);
    assert_eq!(as_u32_le(&[0xff, 0xff, 0xff, 0xff]), u32::MAX);
    assert_eq!(as_u16_le(&[0x10, 0x00]), 16);
    assert_eq!(as_u16_le(&[0x34, 0x12]), 0x1234);
}

#[test]
fn pcm16_samples_decode_signed_values() {
    assert_eq!(
        pcm16_samples(&[0x00, 0x00, 0x02, 0x00, 0xff, 0x7f, 0x00, 0x80, 0xff, 0xff, 0x05]),
        vec![0, 2, 32767, -32768, -1]
    );
    assert_eq!(pcm16_samples(&[]), Vec::<i16>::new());
}

#[test]
fn names_of_format_and_channels() {
    assert_eq!(AudioFormat::PCM.name(), "PCM");
    assert_eq!(Channels::Mono.name(), "Mono");
    assert_eq!(Channels::Stereo.name(), "Stereo");
}
