use rsuite::wavwriter::{get_wav_header, samples_to_le_bytes, wav_file_bytes, WAV_FORMAT_PCM};

#[test]
fn wav_header_pcm_mono() {
    let h = get_wav_header(WAV_FORMAT_PCM, 1, 44100, 16);
    assert_eq!(h, [1, 0, 1, 0, 0x44, 0xAC, 0, 0, 0x88, 0x58, 0x01, 0, 2, 0, 16, 0]);
}

#[test]
fn wav_header_stereo() {
    let h = get_wav_header(WAV_FORMAT_PCM, 2, 48000, 24);
    let bps: u32 = 3 * 2 * 48000;
    assert_eq!(&h[8..12], &bps.to_le_bytes());
    assert_eq!(&h[12..14], &[6, 0]);
}

#[test]
fn sample_bytes_little_endian() {
    assert_eq!(samples_to_le_bytes(&[1, -2, 256]), vec![1, 0, 0xFE, 0xFF, 0, 1]);
    assert_eq!(samples_to_le_bytes(&[]), Vec::<u8>::new());
}

#[test]
fn wav_file_layout() {
    let bytes = wav_file_bytes(&[1, -2, 256], 44100).unwrap();
    let mut expected: Vec<u8> = Vec::new();
    expected.extend_from_slice(b"RIFF");
    expected.extend_from_slice(&42u32.to_le_bytes());
    expected.extend_from_slice(b"WAVE");
    expected.extend_from_slice(b"fmt ");
    expected.extend_from_slice(&16u32.to_le_bytes());
    expected.extend_from_slice(&get_wav_header(WAV_FORMAT_PCM, 1, 44100, 16));
    expected.extend_from_slice(b"data");
    expected.extend_from_slice(&6u32.to_le_bytes());
    expected.extend_from_slice(&[1, 0, 0xFE, 0xFF, 0, 1]);
    assert_eq!(bytes, expected);
}
