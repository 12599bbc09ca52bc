use microboost::wav::{decode_wav, encode_wav};
use microboost::errors::PlayError;

#[test]
fn header_layout_is_canonical() {
    let samples: Vec<i16> = vec![0, 1, -1];
    let bytes = encode_wav(&samples, 44100);
    assert_eq!(bytes.len(), 44 + 2 * samples.len());
    assert_eq!(&bytes[0..4], b"RIFF");
    assert_eq!(&bytes[8..12], b"WAVE");
    assert_eq!(&bytes[12..16], b"fmt ");
    assert_eq!(&bytes[36..40], b"data");
    // riff size = total - 8
    assert_eq!(u32::from_le_bytes([bytes[4], bytes[5], bytes[6], bytes[7]]), 36 + 6);
    // fmt chunk size 16, integer format 1, mono
    assert_eq!(u32::from_le_bytes([bytes[16], bytes[17], bytes[18], bytes[19]]), 16);
    assert_eq!(u16::from_le_bytes([bytes[20], bytes[21]]), 1);
    assert_eq!(u16::from_le_bytes([bytes[22], bytes[23]]), 1);
    // sample rate and byte rate
    assert_eq!(u32::from_le_bytes([bytes[24], bytes[25], bytes[26], bytes[27]]), 44100);
    assert_eq!(u32::from_le_bytes([bytes[28], bytes[29], bytes[30], bytes[31]]), 88200);
    // block align 2, bits 16
    assert_eq!(u16::from_le_bytes([bytes[32], bytes[33]]), 2);
    assert_eq!(u16::from_le_bytes([bytes[34], bytes[35]]), 16);
    // data size
    assert_eq!(u32::from_le_bytes([bytes[40], bytes[41], bytes[42], bytes[43]]), 6);
    // samples little-endian
    assert_eq!(&bytes[44..50], &[0, 0, 1, 0, 0xff, 0xff]);
}

#[test]
fn round_trip_preserves_count_and_values() {
    let samples: Vec<i16> = vec![0, 1, -1, 32767, -32767, 12345, -12345, i16::MIN];
    let bytes = encode_wav(&samples, 48000);
    let decoded = decode_wav(&bytes).unwrap();
    assert_eq!(decoded.sample_rate, 48000);
    assert_eq!(decoded.samples, samples);
}

#[test]
fn round_trip_of_empty_capture_image() {
    let samples: Vec<i16> = vec![];
    let bytes = encode_wav(&samples, 8000);
    assert_eq!(bytes.len(), 44);
    let decoded = decode_wav(&bytes).unwrap();
    assert_eq!(decoded.sample_rate, 8000);
    assert_eq!(decoded.samples.len(), 0);
}

#[test]
fn decode_rejects_short_input() {
    let bytes: Vec<u8> = vec![0x52, 0x49, 0x46, 0x46];
    assert_eq!(decode_wav(&bytes).unwrap_err(), PlayError::DecodeFailure);
}

#[test]
fn decode_rejects_wrong_magic() {
    let samples: Vec<i16> = vec![7, 8];
    let mut bytes = encode_wav(&samples, 44100);
    bytes[0] = b'X';
    assert_eq!(decode_wav(&bytes).unwrap_err(), PlayError::DecodeFailure);
}

#[test]
fn decode_rejects_truncated_data() {
    let samples: Vec<i16> = vec![7, 8];
    let mut bytes = encode_wav(&samples, 44100);
    bytes.pop();
    bytes.pop();
    // data size field no longer matches the actual length
    assert_eq!(decode_wav(&bytes).unwrap_err(), PlayError::DecodeFailure);
}

#[test]
fn decode_rejects_zero_sample_rate() {
    let samples: Vec<i16> = vec![7];
    let mut bytes = encode_wav(&samples, 44100);
    bytes[24] = 0;
    bytes[25] = 0;
    bytes[26] = 0;
    bytes[27] = 0;
    assert_eq!(decode_wav(&bytes).unwrap_err(), PlayError::DecodeFailure);
}

#[test]
fn standard_reader_accepts_encoded_image() {
    let samples: Vec<i16> = vec![0, 1, -1, 32767, -32767, 12345];
    let bytes = encode_wav(&samples, 22050);
    let cursor = std::io::Cursor::new(bytes);
    let mut reader = hound::WavReader::new(cursor).unwrap();
    let spec = reader.spec();
    assert_eq!(spec.channels, 1);
    assert_eq!(spec.sample_rate, 22050);
    assert_eq!(spec.bits_per_sample, 16);
    assert!(matches!(spec.sample_format, hound::SampleFormat::Int));
    let got: Vec<i16> = reader.samples::<i16>().map(|r| r.unwrap()).collect();
    assert_eq!(got, samples);
}

#[test]
fn decoder_accepts_standard_writer_image() {
    let spec = hound::WavSpec {
        channels: 1,
        sample_rate: 11025,
        bits_per_sample: 16,
        sample_format: hound::SampleFormat::Int,
    };
    let mut buf: Vec<u8> = Vec::new();
    {
        let cursor = std::io::Cursor::new(&mut buf);
        let mut writer = hound::WavWriter::new(cursor, spec).unwrap();
        for s in [5i16, -6, 700, -800] {
            writer.write_sample(s).unwrap();
        }
        writer.finalize().unwrap();
    }
    let decoded = decode_wav(&buf).unwrap();
    assert_eq!(decoded.sample_rate, 11025);
    assert_eq!(decoded.samples, vec![5, -6, 700, -800]);
}
