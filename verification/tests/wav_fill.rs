use std::io::Cursor;
use zero_fill::error::Error;
use zero_fill::fill::fill_matching;
use zero_fill::wav::fill_wav;

fn spec_int(channels: u16, bits: u16) -> hound::WavSpec {
    hound::WavSpec {
        channels,
        sample_rate: 11025,
        bits_per_sample: bits,
        sample_format: hound::SampleFormat::Int,
    }
}

fn wav_bytes(spec: hound::WavSpec, samples: &[i16]) -> Vec<u8> {
    let mut buf: Vec<u8> = Vec::new();
    let mut writer = hound::WavWriter::new(Cursor::new(&mut buf), spec).unwrap();
    for s in samples {
        writer.write_sample(*s).unwrap();
    }
    writer.finalize().unwrap();
    buf
}

#[test]
fn test_fill_wav() {
    let spec = spec_int(1, 16);
    let data = wav_bytes(spec, &[3, -5, 700, 0, -32768, 32767]);

    let at_least_one_not_zero = {
        let mut reader = hound::WavReader::new(Cursor::new(&data)).unwrap();
        reader.samples::<i16>().any(|s| s.unwrap() != 0)
    };
    assert!(at_least_one_not_zero);

    let out = fill_wav(&data).unwrap();

    let mut reader = hound::WavReader::new(Cursor::new(&out)).unwrap();
    assert_eq!(reader.spec(), spec);
    assert_eq!(reader.len(), 6);
    let is_all_zeroes = reader.samples::<i16>().all(|s| s.unwrap() == 0);
    assert!(is_all_zeroes);
}

#[test]
fn test_fill_wav_8bit_samples() {
    let spec = spec_int(1, 8);
    let data = wav_bytes(spec, &[1, -2, 100, -100]);

    let out = fill_wav(&data).unwrap();

    let mut reader = hound::WavReader::new(Cursor::new(&out)).unwrap();
    assert_eq!(reader.spec(), spec);
    assert_eq!(reader.len(), 4);
    assert!(reader.samples::<i16>().all(|s| s.unwrap() == 0));
}

#[test]
fn test_fill_wav_stereo_spec_preserved() {
    let spec = spec_int(2, 16);
    let data = wav_bytes(spec, &[10, -10, 20, -20]);

    let out = fill_wav(&data).unwrap();

    let mut reader = hound::WavReader::new(Cursor::new(&out)).unwrap();
    assert_eq!(reader.spec(), spec);
    assert_eq!(reader.len(), 4);
    assert!(reader.samples::<i16>().all(|s| s.unwrap() == 0));
}

#[test]
fn test_fill_wav_float_file() {
    let spec = hound::WavSpec {
        channels: 1,
        sample_rate: 8000,
        bits_per_sample: 32,
        sample_format: hound::SampleFormat::Float,
    };
    let mut buf: Vec<u8> = Vec::new();
    let mut writer = hound::WavWriter::new(Cursor::new(&mut buf), spec).unwrap();
    for s in [0.5f32, -0.25, 1.0] {
        writer.write_sample(s).unwrap();
    }
    writer.finalize().unwrap();

    let out = fill_wav(&buf).unwrap();

    let mut reader = hound::WavReader::new(Cursor::new(&out)).unwrap();
    assert_eq!(reader.spec(), spec);
    assert_eq!(reader.len(), 3);
    assert!(reader.samples::<f32>().all(|s| s.unwrap() == 0.0));
}

#[test]
fn test_fill_wav_invalid_input_rejected() {
    // A `.wav` path over bytes that are not a WAV file: a format error, and
    // the caller's input is left untouched.
    let data = vec![0x47u8, 0x49, 0x46, 0x38, 0x39, 0x61, 0x00, 0x01];
    let before = data.clone();

    let res = fill_matching("broken.wav", &data);
    assert!(matches!(res, Err(Error::Wav(_))));
    assert_eq!(data, before);
}

#[test]
fn test_fill_wav_empty_input_rejected() {
    let res = fill_wav(&Vec::new());
    assert!(matches!(res, Err(Error::Wav(_))));
}

#[test]
fn test_fill_wav_idempotent() {
    let data = wav_bytes(spec_int(1, 16), &[7, 8, 9]);
    let once = fill_wav(&data).unwrap();
    let twice = fill_wav(&once).unwrap();
    assert_eq!(once, twice);
}

#[test]
fn test_fill_matching_routes_upper_wav_to_structured() {
    // Dispatch on an upper-case `.WAV` path must use the structured filler:
    // the output still parses as WAV, which an opaque all-zero rewrite of the
    // same bytes would not.
    let spec = spec_int(1, 16);
    let data = wav_bytes(spec, &[4, 5, 6]);

    let out = fill_matching("test_c_zero_fill_matching.WAV", &data).unwrap();

    let mut reader = hound::WavReader::new(Cursor::new(&out)).unwrap();
    assert_eq!(reader.spec(), spec);
    assert_eq!(reader.len(), 3);
    assert!(reader.samples::<i16>().all(|s| s.unwrap() == 0));
}

#[test]
fn test_fill_wav_already_zeroed() {
    let data = wav_bytes(spec_int(1, 16), &[0, 0, 0, 0]);
    let out = fill_wav(&data).unwrap();

    let mut reader = hound::WavReader::new(Cursor::new(&out)).unwrap();
    assert_eq!(reader.len(), 4);
    assert!(reader.samples::<i16>().all(|s| s.unwrap() == 0));
}
