use llm_client::error::{ClientError, Operation};
use llm_client::json::Json;
use llm_client::transcribe::{
    encode_wav, interpret_transcription_response, prepare_transcription,
    transcription_from_response, wav_outcome,
};

fn to_pcm(samples: &[f32]) -> Vec<i16> {
    samples.iter().map(|s| (s * i16::MAX as f32).round() as i16).collect()
}

#[test]
fn missing_key_prepares_nothing() {
    assert_eq!(
        prepare_transcription("", "https://api.openai.com/v1", "whisper-1", &vec![0, 1, 2]),
        Err(ClientError::MissingCredential)
    );
}

#[test]
fn upload_is_prepared_with_bearer_scheme() {
    let upload =
        prepare_transcription("sk-1", "https://api.openai.com/v1/", "whisper-1", &vec![1, -1])
            .unwrap();
    assert_eq!(upload.url, "https://api.openai.com/v1/audio/transcriptions");
    assert_eq!(upload.authorization, "Bearer sk-1");
    assert_eq!(upload.model, "whisper-1");
    assert_eq!(upload.file_name, "audio.wav");
    assert_eq!(upload.mime_type, "audio/wav");
    assert_eq!(upload.wav, encode_wav(&vec![1, -1]).unwrap());
}

#[test]
fn three_samples_fill_six_bytes_in_order() {
    let pcm = to_pcm(&[0.0, 1.0, -1.0]);
    assert_eq!(pcm, vec![0, 32767, -32767]);
    let upload = prepare_transcription("k", "https://api.openai.com/v1", "whisper-1", &pcm);
    let wav = upload.unwrap().wav;
    assert_eq!(&wav[40..44], &[6, 0, 0, 0]);
    assert_eq!(&wav[44..], &[0, 0, 0xff, 0x7f, 0x01, 0x80]);
    let mut reader = hound::WavReader::new(std::io::Cursor::new(wav)).unwrap();
    let decoded: Vec<i16> = reader.samples::<i16>().map(|s| s.unwrap()).collect();
    assert_eq!(decoded, vec![0, 32767, -32767]);
}

#[test]
fn scaling_rounds_and_saturates() {
    assert_eq!(to_pcm(&[0.5, -0.5, 2.0, -2.0, 0.00002]), vec![16384, -16384, 32767, -32768, 1]);
}

#[test]
fn container_bytes_are_exact() {
    let bytes = encode_wav(&vec![0, 1, -1, 258, i16::MIN, i16::MAX]).unwrap();
    let expected: Vec<u8> = vec![
        0x52, 0x49, 0x46, 0x46, 48, 0, 0, 0, 0x57, 0x41, 0x56, 0x45, 0x66, 0x6d, 0x74, 0x20, 16,
        0, 0, 0, 1, 0, 1, 0, 0x80, 0x3e, 0, 0, 0x00, 0x7d, 0, 0, 2, 0, 16, 0, 0x64, 0x61, 0x74,
        0x61, 12, 0, 0, 0, 0, 0, 1, 0, 0xff, 0xff, 2, 1, 0, 0x80, 0xff, 0x7f,
    ];
    assert_eq!(bytes, expected);
}

#[test]
fn empty_audio_is_a_bare_header() {
    let bytes = encode_wav(&vec![]).unwrap();
    assert_eq!(bytes.len(), 44);
    assert_eq!(&bytes[4..8], &[36, 0, 0, 0]);
    assert_eq!(&bytes[40..44], &[0, 0, 0, 0]);
}

#[test]
fn encoded_sine_decodes_to_the_same_stream() {
    let samples: Vec<f32> = (0..16000)
        .map(|i| (2.0 * std::f32::consts::PI * 440.0 * i as f32 / 16000.0).sin())
        .collect();
    let pcm = to_pcm(&samples);
    let bytes = encode_wav(&pcm).unwrap();
    assert_eq!(bytes.len(), 44 + 2 * 16000);
    let mut reader = hound::WavReader::new(std::io::Cursor::new(bytes)).unwrap();
    let spec = reader.spec();
    assert_eq!(spec.channels, 1);
    assert_eq!(spec.sample_rate, 16000);
    assert_eq!(spec.bits_per_sample, 16);
    assert_eq!(spec.sample_format, hound::SampleFormat::Int);
    assert_eq!(reader.len(), 16000);
    let decoded: Vec<i16> = reader.samples::<i16>().map(|s| s.unwrap()).collect();
    assert_eq!(decoded, pcm);
}

#[test]
fn transcript_is_read_from_text() {
    assert_eq!(
        interpret_transcription_response(200, r#"{"text":"hello world"}"#),
        Ok("hello world".to_string())
    );
    assert_eq!(
        interpret_transcription_response(200, r#"{"text":"","language":"en"}"#),
        Ok(String::new())
    );
}

#[test]
fn success_without_text_is_a_shape_mismatch() {
    for body in ["", "{}", r#"{"text":5}"#, r#"["hello"]"#, r#"{"Text":"x"}"#] {
        assert_eq!(
            interpret_transcription_response(200, body),
            Err(ClientError::ResponseShapeMismatch { operation: Operation::Transcription })
        );
    }
}

#[test]
fn provider_message_is_surfaced() {
    let body = r#"{"error":{"message":"Incorrect API key provided","type":"invalid_request_error"}}"#;
    assert_eq!(
        interpret_transcription_response(401, body),
        Err(ClientError::ApiFailure {
            operation: Operation::Transcription,
            status: 401,
            message: "Incorrect API key provided".to_string(),
            service_message: true
        })
    );
}

#[test]
fn raw_body_is_surfaced_without_a_provider_message() {
    for body in ["Bad Gateway", r#"{"error":"bad key"}"#, r#"{"error":{"message":3}}"#, "{}"] {
        assert_eq!(
            interpret_transcription_response(502, body),
            Err(ClientError::ApiFailure { operation: Operation::Transcription, status: 502, message: body.to_string(), service_message: false })
        );
    }
}

#[test]
fn transcription_from_parsed_values() {
    assert_eq!(
        transcription_from_response(200, "", Some(Json::Null)),
        Err(ClientError::ResponseShapeMismatch { operation: Operation::Transcription })
    );
    assert_eq!(
        transcription_from_response(429, "slow down", None),
        Err(ClientError::ApiFailure { operation: Operation::Transcription, status: 429, message: "slow down".to_string(), service_message: false })
    );
}

#[test]
fn writer_failure_is_an_encoding_failure() {
    assert_eq!(wav_outcome(Err(hound::Error::Unsupported)), Err(ClientError::AudioEncodingFailure));
    assert_eq!(wav_outcome(Ok(vec![1, 2, 3])), Ok(vec![1, 2, 3]));
}

#[test]
fn missing_key_wins_over_everything_else() {
    assert_eq!(
        prepare_transcription("", "", "", &vec![]),
        Err(ClientError::MissingCredential)
    );
    assert!(prepare_transcription("k", "", "", &vec![]).is_ok());
}
