use kaikei_voice::wav::{encode_wav, wav_fits};

#[test]
fn file_is_header_and_samples() {
    let file = encode_wav(&vec![0, 1, -1, i16::MAX, i16::MIN]).unwrap();
    let expected: Vec<u8> = vec![
        b'R', b'I', b'F', b'F', 46, 0, 0, 0, b'W', b'A', b'V', b'E', //
        b'f', b'm', b't', b' ', 16, 0, 0, 0, 1, 0, 1, 0, //
        0x80, 0x3e, 0, 0, 0x00, 0x7d, 0, 0, 2, 0, 16, 0, //
        b'd', b'a', b't', b'a', 10, 0, 0, 0, //
        0, 0, 1, 0, 0xff, 0xff, 0xff, 0x7f, 0x00, 0x80,
    ];
    assert_eq!(file, expected);
}

#[test]
fn empty_recording_is_a_bare_header() {
    let file = encode_wav(&Vec::new()).unwrap();
    assert_eq!(file.len(), 44);
    assert_eq!(file[4..8], [36, 0, 0, 0]);
    assert_eq!(file[40..44], [0, 0, 0, 0]);
}

#[test]
fn long_recording_has_long_lengths() {
    let file = encode_wav(&vec![7; 100_000]).unwrap();
    assert_eq!(file.len(), 44 + 200_000);
    assert_eq!(file[4..8], 200_036_u32.to_le_bytes());
    assert_eq!(file[40..44], 200_000_u32.to_le_bytes());
}

#[test]
fn samples_are_read_back() {
    let samples: Vec<i16> = (-500..500).map(|n| n * 65).collect();
    let file = encode_wav(&samples).unwrap();
    let mut reader = hound::WavReader::new(std::io::Cursor::new(file)).unwrap();
    let spec = reader.spec();
    assert_eq!((spec.channels, spec.sample_rate, spec.bits_per_sample), (1, 16000, 16));
    let back: Vec<i16> = reader.samples::<i16>().map(|s| s.unwrap()).collect();
    assert_eq!(back, samples);
}

#[test]
fn largest_file_has_a_32_bit_length() {
    assert!(wav_fits(0));
    assert!(wav_fits(2_147_483_629));
    assert!(!wav_fits(2_147_483_630));
    assert!(!wav_fits(usize::MAX));
}
