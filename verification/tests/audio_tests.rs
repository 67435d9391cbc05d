use sagascript::audio::MAX_BUFFER_SAMPLES;
use sagascript::audio::TARGET_SAMPLE_RATE;
use sagascript::audio::append_capped;
use sagascript::audio::mix_to_mono;
use sagascript::audio::process_block;
use sagascript::audio::resample_to_16khz;
use sagascript::wav::encode_wav;

// -- mix_to_mono --

#[test]
fn mix_to_mono_passthrough_single_channel() {
    let data = vec![1000i16, 2000, 3000];
    let result = mix_to_mono(&data, 1);
    assert_eq!(result, data);
}

#[test]
fn mix_to_mono_stereo() {
    // L=16000, R=0 -> avg 8000; L=0, R=16000 -> avg 8000
    let data = vec![16000i16, 0, 0, 16000];
    let result = mix_to_mono(&data, 2);
    assert_eq!(result, vec![8000i16, 8000]);
}

#[test]
fn mix_to_mono_stereo_identical_channels() {
    let data = vec![7000i16, 7000, -3000, -3000];
    let result = mix_to_mono(&data, 2);
    assert_eq!(result, vec![7000i16, -3000]);
}

#[test]
fn mix_to_mono_surround_51() {
    // 6 channels, 1 frame: all 6000 -> avg 6000
    let data = vec![6000i16; 6];
    let result = mix_to_mono(&data, 6);
    assert_eq!(result, vec![6000i16]);
}

#[test]
fn mix_to_mono_empty() {
    let result = mix_to_mono(&vec![], 2);
    assert!(result.is_empty());
}

#[test]
fn mix_to_mono_extremes_stay_in_range() {
    let data = vec![i16::MIN, i16::MIN, i16::MAX, i16::MAX];
    let result = mix_to_mono(&data, 2);
    assert_eq!(result, vec![i16::MIN, i16::MAX]);
}

// -- resample_to_16khz --

#[test]
fn resample_same_rate_passthrough() {
    let data = vec![100i16, 200, 300, 400];
    let result = resample_to_16khz(data.clone(), TARGET_SAMPLE_RATE);
    assert_eq!(result, data);
}

#[test]
fn resample_downsample_from_48khz() {
    // 48kHz -> 16kHz = 1/3 ratio, so 48000 samples -> 16000
    let data: Vec<i16> = (0..48000).map(|i| (i % 2000) as i16).collect();
    let result = resample_to_16khz(data, 48_000);
    assert_eq!(result.len(), 16000);
}

#[test]
fn resample_downsample_from_44100() {
    let data: Vec<i16> = vec![0; 44100];
    let result = resample_to_16khz(data, 44_100);
    // 44100 * (16000/44100) = 16000
    assert_eq!(result.len(), 16000);
}

#[test]
fn resample_upsample_from_8khz() {
    // 8kHz -> 16kHz = 2x, so 8000 samples -> 16000
    let data: Vec<i16> = vec![500; 8000];
    let result = resample_to_16khz(data, 8_000);
    assert_eq!(result.len(), 16000);
    // All values should still be 500 (nearest-neighbor)
    for &s in &result {
        assert_eq!(s, 500);
    }
}

#[test]
fn resample_empty_input() {
    let result = resample_to_16khz(vec![], 44_100);
    assert!(result.is_empty());
}

#[test]
fn resample_preserves_values_at_same_rate() {
    let data = vec![i16::MIN, 0, 500, i16::MAX];
    let result = resample_to_16khz(data.clone(), TARGET_SAMPLE_RATE);
    assert_eq!(result, data);
}

// -- append_capped --

#[test]
fn append_within_cap_extends() {
    let mut buffer = vec![1i16, 2];
    append_capped(&mut buffer, &vec![3i16, 4]);
    assert_eq!(buffer, vec![1i16, 2, 3, 4]);
}

#[test]
fn append_over_cap_drops_whole_block() {
    let mut buffer = vec![0i16; MAX_BUFFER_SAMPLES - 1];
    append_capped(&mut buffer, &vec![7i16, 7]);
    assert_eq!(buffer.len(), MAX_BUFFER_SAMPLES - 1);
    append_capped(&mut buffer, &vec![7i16]);
    assert_eq!(buffer.len(), MAX_BUFFER_SAMPLES);
}

// -- process_block --

#[test]
fn process_block_mixes_resamples_and_appends() {
    let mut buffer: Vec<i16> = Vec::new();
    // Stereo at 32 kHz: downmix halves the frames, resample halves again.
    let data: Vec<i16> = vec![400i16; 64];
    process_block(&data, 2, 32_000, &mut buffer);
    assert_eq!(buffer.len(), 16);
    for &s in &buffer {
        assert_eq!(s, 400);
    }
}

// -- encode_wav --

#[test]
fn test_wav_header() {
    let samples = vec![0i16; 16000]; // 1 second of silence
    let wav = encode_wav(&samples);

    // Check RIFF header
    assert_eq!(&wav[0..4], b"RIFF");
    assert_eq!(&wav[8..12], b"WAVE");
    assert_eq!(&wav[12..16], b"fmt ");
    assert_eq!(&wav[36..40], b"data");

    // 44 byte header + 32000 bytes of audio (16000 samples * 2 bytes)
    assert_eq!(wav.len(), 44 + 32000);
}

#[test]
fn test_empty_input() {
    let wav = encode_wav(&vec![]);
    // Just a header, no audio data
    assert_eq!(wav.len(), 44);
    assert_eq!(&wav[0..4], b"RIFF");
    // data chunk size should be 0
    let data_size = u32::from_le_bytes([wav[40], wav[41], wav[42], wav[43]]);
    assert_eq!(data_size, 0);
}

#[test]
fn test_single_sample() {
    let wav = encode_wav(&vec![-2i16]);
    assert_eq!(wav.len(), 46);
    // Little-endian two's complement of -2
    assert_eq!(wav[44], 0xFE);
    assert_eq!(wav[45], 0xFF);
    // Format fields: PCM, mono, 16 kHz, 16-bit
    assert_eq!(u16::from_le_bytes([wav[20], wav[21]]), 1);
    assert_eq!(u16::from_le_bytes([wav[22], wav[23]]), 1);
    assert_eq!(u32::from_le_bytes([wav[24], wav[25], wav[26], wav[27]]), 16000);
    assert_eq!(u32::from_le_bytes([wav[28], wav[29], wav[30], wav[31]]), 32000);
    assert_eq!(u16::from_le_bytes([wav[34], wav[35]]), 16);
}
