//! Cloud transcription: framing the audio and reading the answer.

use crate::error::{ClientError, Operation, is_success, status_is_success};
use crate::json::{Json, json_document, parse_document};
use crate::provider::{endpoint, transcriptions_url};
use vstd::prelude::*;
use vstd::string::*;

verus! {

/// Samples per second of the audio that is uploaded.
pub const SAMPLE_RATE: u32 = 16000;

/// The audio is mono.
pub const CHANNELS: u16 = 1;

/// Each sample is a signed 16-bit integer.
pub const BITS_PER_SAMPLE: u16 = 16;

/// The most samples whose container still declares its lengths in 32 bits.
pub const MAX_SAMPLES: usize = 2147483629;

/// `hound::Error`, carried as it is.
#[verifier::external_type_specification]
#[verifier::external_body]
pub struct ExWavError(hound::Error);

/// The two bytes of `v`, low byte first.
pub open spec fn le16(v: int) -> Seq<u8> {
    seq![(v % 256) as u8, ((v / 256) % 256) as u8]
}

/// The four bytes of `v`, low byte first.
pub open spec fn le32(v: int) -> Seq<u8> {
    seq![
        (v % 256) as u8,
        ((v / 256) % 256) as u8,
        ((v / 65536) % 256) as u8,
        ((v / 16777216) % 256) as u8,
    ]
}

/// A sample as an unsigned 16-bit word, in two's complement.
pub open spec fn sample_word(sample: i16) -> int {
    if sample >= 0 {
        sample as int
    } else {
        sample + 65536
    }
}

/// The samples as bytes: each one as two bytes, low byte first.
pub open spec fn pcm_data(samples: Seq<i16>) -> Seq<u8>
    decreases samples.len(),
{
    if samples.len() == 0 {
        Seq::empty()
    } else {
        pcm_data(samples.drop_last()) + le16(sample_word(samples.last()))
    }
}

/// The RIFF header: the tag, the length of everything behind these eight
/// bytes, and the form type.
pub open spec fn riff_chunk(data_len: int) -> Seq<u8> {
    seq![0x52u8, 0x49u8, 0x46u8, 0x46u8] + le32(data_len + 36) + seq![
        0x57u8,
        0x41u8,
        0x56u8,
        0x45u8,
    ]
}

/// The format chunk of 16-bit integer PCM: its tag and length, the format
/// code 1, the channels, the sample rate, the bytes per second, the bytes per
/// frame and the bits per sample.
pub open spec fn format_chunk(channels: u16, sample_rate: u32) -> Seq<u8> {
    seq![0x66u8, 0x6du8, 0x74u8, 0x20u8] + le32(16) + (le16(1) + le16(channels as int)) + (le32(
        sample_rate as int,
    ) + le32(sample_rate * 2 * channels)) + (le16(2 * channels) + le16(16))
}

/// The header of the data chunk: its tag and the length of the data.
pub open spec fn data_chunk_header(data_len: int) -> Seq<u8> {
    seq![0x64u8, 0x61u8, 0x74u8, 0x61u8] + le32(data_len)
}

/// The 44 bytes before the samples of a 16-bit PCM container.
pub open spec fn wav_header(channels: u16, sample_rate: u32, data_len: int) -> Seq<u8> {
    riff_chunk(data_len) + format_chunk(channels, sample_rate) + data_chunk_header(data_len)
}

/// The complete container for `samples`.
pub open spec fn wav_container(channels: u16, sample_rate: u32, samples: Seq<i16>) -> Seq<u8> {
    wav_header(channels, sample_rate, 2 * (samples.len() as int)) + pcm_data(samples)
}

/// `hound::WavWriter` over a buffer in memory: `new` with an integer format
/// of the given channels, rate and bits, `write_sample` for each sample in
/// turn, then `finalize`. For mono 16-bit audio whose lengths fit in 32 bits
/// the writer produces the 44-byte PCM header with both lengths filled in,
/// followed by the samples. The writer fails only where the buffer refuses a
/// write, a sample is wider than the format or a frame is left unfinished:
/// none of them can happen to 16-bit mono samples written to memory.
#[verifier::external_body]
fn write_wav(channels: u16, sample_rate: u32, bits_per_sample: u16, samples: &Vec<i16>) -> (written:
    Result<Vec<u8>, hound::Error>)
    requires
        channels == 1,
        bits_per_sample == 16,
        0 < sample_rate <= 0x7fff_ffff,
        samples@.len() <= MAX_SAMPLES,
    ensures
        written is Ok,
        written->Ok_0@ == wav_container(channels, sample_rate, samples@),
{
    let sample_format = hound::SampleFormat::Int;
    let spec = hound::WavSpec { channels, sample_rate, bits_per_sample, sample_format };
    let mut buffer = std::io::Cursor::new(Vec::new());
    let mut writer = hound::WavWriter::new(&mut buffer, spec)?;
    for sample in samples.iter() {
        writer.write_sample(*sample)?;
    }
    writer.finalize()?;
    Ok(buffer.into_inner())
}

/// Reports the result of writing a container: its bytes where there are any,
/// else a failure of encoding.
pub fn wav_outcome(written: Result<Vec<u8>, hound::Error>) -> (encoded: Result<Vec<u8>, ClientError>)
    ensures
        encoded is Ok <==> written is Ok,
        encoded is Ok ==> encoded->Ok_0 == written->Ok_0,
        encoded is Err ==> encoded->Err_0 == ClientError::AudioEncodingFailure,
{
    match written {
        Ok(bytes) => Ok(bytes),
        Err(_) => Err(ClientError::AudioEncodingFailure),
    }
}

/// Frames `samples` as a mono, 16 kHz, 16-bit PCM WAV container in memory.
pub fn encode_wav(samples: &Vec<i16>) -> (encoded: Result<Vec<u8>, ClientError>)
    ensures
        encoded is Ok <==> samples@.len() <= MAX_SAMPLES,
        encoded is Ok ==> encoded->Ok_0@ == wav_container(CHANNELS, SAMPLE_RATE, samples@),
        encoded is Err ==> encoded->Err_0 == ClientError::AudioEncodingFailure,
{
    if samples.len() > MAX_SAMPLES {
        return Err(ClientError::AudioEncodingFailure);
    }
    wav_outcome(write_wav(CHANNELS, SAMPLE_RATE, BITS_PER_SAMPLE, samples))
}

/// A container is 44 bytes longer than its samples, two bytes each.
pub proof fn lemma_wav_length(channels: u16, sample_rate: u32, samples: Seq<i16>)
    ensures
        pcm_data(samples).len() == 2 * samples.len(),
        wav_container(channels, sample_rate, samples).len() == 44 + 2 * samples.len(),
    decreases samples.len(),
{
    if samples.len() > 0 {
        lemma_wav_length(channels, sample_rate, samples.drop_last());
    }
}

/// The 16-bit number stored low byte first at `at`.
pub open spec fn read_le16(bytes: Seq<u8>, at: int) -> int {
    bytes[at] + 256 * bytes[at + 1]
}

/// The 32-bit number stored low byte first at `at`.
pub open spec fn read_le32(bytes: Seq<u8>, at: int) -> int {
    bytes[at] + 256 * bytes[at + 1] + 65536 * bytes[at + 2] + 16777216 * bytes[at + 3]
}

/// The sample that an unsigned 16-bit word stands for, in two's complement.
pub open spec fn word_sample(word: int) -> int {
    if word < 32768 {
        word
    } else {
        word - 65536
    }
}

/// Sample `i` occupies the bytes `2 * i` and `2 * i + 1` of the data.
pub proof fn lemma_pcm_data_holds_each_sample(samples: Seq<i16>, i: int)
    requires
        0 <= i < samples.len(),
    ensures
        pcm_data(samples).len() == 2 * samples.len(),
        word_sample(read_le16(pcm_data(samples), 2 * i)) == samples[i],
    decreases samples.len(),
{
    lemma_wav_length(CHANNELS, SAMPLE_RATE, samples);
    lemma_wav_length(CHANNELS, SAMPLE_RATE, samples.drop_last());
    let front = pcm_data(samples.drop_last());
    let word = le16(sample_word(samples.last()));
    if i < samples.len() - 1 {
        lemma_pcm_data_holds_each_sample(samples.drop_last(), i);
        assert(pcm_data(samples)[2 * i] == front[2 * i]);
        assert(pcm_data(samples)[2 * i + 1] == front[2 * i + 1]);
    } else {
        assert(pcm_data(samples)[2 * i] == word[0]);
        assert(pcm_data(samples)[2 * i + 1] == word[1]);
    }
}

/// A number below 2^32 is read back from its four bytes.
pub proof fn lemma_le32_reads_back(v: int)
    requires
        0 <= v < 0x1_0000_0000,
    ensures
        le32(v).len() == 4,
        read_le32(le32(v), 0) == v,
{
}

/// A number below 2^16 is read back from its two bytes.
pub proof fn lemma_le16_reads_back(v: int)
    requires
        0 <= v < 0x1_0000,
    ensures
        le16(v).len() == 2,
        read_le16(le16(v), 0) == v,
{
}

proof fn lemma_riff_chunk_layout(data_len: int)
    requires
        0 <= data_len,
        data_len + 36 < 0x1_0000_0000,
    ensures
        riff_chunk(data_len).len() == 12,
        riff_chunk(data_len).subrange(0, 4) == seq![0x52u8, 0x49u8, 0x46u8, 0x46u8],
        read_le32(riff_chunk(data_len), 4) == data_len + 36,
{
    let size = le32(data_len + 36);
    lemma_le32_reads_back(data_len + 36);
    let chunk = riff_chunk(data_len);
    assert(chunk.len() == 12);
    assert(chunk[4] == size[0] && chunk[5] == size[1] && chunk[6] == size[2] && chunk[7]
        == size[3]);
    assert(chunk.subrange(0, 4) =~= seq![0x52u8, 0x49u8, 0x46u8, 0x46u8]);
}

proof fn lemma_format_chunk_layout()
    ensures
        format_chunk(CHANNELS, SAMPLE_RATE) == seq![
            0x66u8,
            0x6du8,
            0x74u8,
            0x20u8,
            16u8,
            0u8,
            0u8,
            0u8,
            1u8,
            0u8,
            1u8,
            0u8,
            0x80u8,
            0x3eu8,
            0u8,
            0u8,
            0x00u8,
            0x7du8,
            0u8,
            0u8,
            2u8,
            0u8,
            16u8,
            0u8,
        ],
{
    assert(le32(16) =~= seq![16u8, 0u8, 0u8, 0u8]);
    assert(le16(1) + le16(1) =~= seq![1u8, 0u8, 1u8, 0u8]);
    assert(le32(16000) =~= seq![0x80u8, 0x3eu8, 0u8, 0u8]);
    assert(le32(32000) =~= seq![0x00u8, 0x7du8, 0u8, 0u8]);
    assert(le32(16000) + le32(32000) =~= seq![
        0x80u8,
        0x3eu8,
        0u8,
        0u8,
        0x00u8,
        0x7du8,
        0u8,
        0u8,
    ]);
    assert(le16(2) + le16(16) =~= seq![2u8, 0u8, 16u8, 0u8]);
    assert(seq![0x66u8, 0x6du8, 0x74u8, 0x20u8] + seq![16u8, 0u8, 0u8, 0u8] + seq![
        1u8,
        0u8,
        1u8,
        0u8,
    ] + seq![0x80u8, 0x3eu8, 0u8, 0u8, 0x00u8, 0x7du8, 0u8, 0u8] + seq![2u8, 0u8, 16u8, 0u8]
        =~= seq![
        0x66u8,
        0x6du8,
        0x74u8,
        0x20u8,
        16u8,
        0u8,
        0u8,
        0u8,
        1u8,
        0u8,
        1u8,
        0u8,
        0x80u8,
        0x3eu8,
        0u8,
        0u8,
        0x00u8,
        0x7du8,
        0u8,
        0u8,
        2u8,
        0u8,
        16u8,
        0u8,
    ]);
}

proof fn lemma_data_chunk_header_layout(data_len: int)
    requires
        0 <= data_len < 0x1_0000_0000,
    ensures
        data_chunk_header(data_len).len() == 8,
        read_le32(data_chunk_header(data_len), 4) == data_len,
{
    let size = le32(data_len);
    lemma_le32_reads_back(data_len);
    let chunk = data_chunk_header(data_len);
    assert(chunk[4] == size[0] && chunk[5] == size[1] && chunk[6] == size[2] && chunk[7]
        == size[3]);
}

/// The header is 44 bytes long and holds its fields at their fixed places.
pub proof fn lemma_header_layout(data_len: int)
    requires
        0 <= data_len,
        data_len + 36 < 0x1_0000_0000,
    ensures
        ({
            let header = wav_header(CHANNELS, SAMPLE_RATE, data_len);
            &&& header.len() == 44
            &&& header.subrange(0, 4) == seq![0x52u8, 0x49u8, 0x46u8, 0x46u8]
            &&& read_le32(header, 4) == data_len + 36
            &&& read_le16(header, 20) == 1
            &&& read_le16(header, 22) == CHANNELS
            &&& read_le32(header, 24) == SAMPLE_RATE
            &&& read_le16(header, 34) == BITS_PER_SAMPLE
            &&& read_le32(header, 40) == data_len
        }),
{
    let header = wav_header(CHANNELS, SAMPLE_RATE, data_len);
    let riff = riff_chunk(data_len);
    let format = format_chunk(CHANNELS, SAMPLE_RATE);
    let data = data_chunk_header(data_len);
    lemma_riff_chunk_layout(data_len);
    lemma_format_chunk_layout();
    lemma_data_chunk_header_layout(data_len);
    assert(format.len() == 24);
    assert(header.len() == 44);
    assert forall|k: int| 0 <= k < 12 implies header[k] == riff[k] by {}
    assert forall|k: int| 12 <= k < 36 implies header[k] == format[k - 12] by {}
    assert forall|k: int| 36 <= k < 44 implies header[k] == data[k - 36] by {}
    assert(header.subrange(0, 4) =~= riff.subrange(0, 4));
    assert(header[20] == format[8] && header[21] == format[9]);
    assert(header[22] == format[10] && header[23] == format[11]);
    assert(header[24] == format[12] && header[25] == format[13] && header[26] == format[14]
        && header[27] == format[15]);
    assert(header[34] == format[22] && header[35] == format[23]);
}

/// A container describes itself and loses nothing: it announces mono 16-bit
/// PCM at 16 kHz, declares the length of what follows the RIFF header and the
/// length of the data as they are, and every sample can be read back from its
/// place behind the 44-byte header.
pub proof fn lemma_wav_is_self_describing(samples: Seq<i16>)
    requires
        samples.len() <= MAX_SAMPLES,
    ensures
        ({
            let wav = wav_container(CHANNELS, SAMPLE_RATE, samples);
            &&& wav.len() == 44 + 2 * samples.len()
            &&& wav.subrange(0, 4) == seq![0x52u8, 0x49u8, 0x46u8, 0x46u8]
            &&& read_le32(wav, 4) == wav.len() - 8
            &&& read_le16(wav, 20) == 1
            &&& read_le16(wav, 22) == CHANNELS
            &&& read_le32(wav, 24) == SAMPLE_RATE
            &&& read_le16(wav, 34) == BITS_PER_SAMPLE
            &&& read_le32(wav, 40) == 2 * samples.len()
            &&& forall|i: int|
                0 <= i < samples.len() ==> word_sample(read_le16(wav, 44 + 2 * i)) == #[trigger] samples[i]
        }),
{
    let header = wav_header(CHANNELS, SAMPLE_RATE, 2 * (samples.len() as int));
    let data = pcm_data(samples);
    let wav = wav_container(CHANNELS, SAMPLE_RATE, samples);
    lemma_wav_length(CHANNELS, SAMPLE_RATE, samples);
    lemma_header_layout(2 * (samples.len() as int));
    assert(wav == header + data);
    assert forall|k: int| 0 <= k < 44 implies wav[k] == header[k] by {}
    assert(wav.subrange(0, 4) =~= header.subrange(0, 4));
    assert forall|i: int| 0 <= i < samples.len() implies word_sample(read_le16(wav, 44 + 2 * i))
        == #[trigger] samples[i] by {
        lemma_pcm_data_holds_each_sample(samples, i);
        assert(wav[44 + 2 * i] == data[2 * i]);
        assert(wav[44 + 2 * i + 1] == data[2 * i + 1]);
    }
}

/// What is uploaded for one transcription.
#[derive(Debug, Clone, PartialEq, Eq)]
pub struct TranscriptionUpload {
    /// The request target.
    pub url: String,
    /// The value of the `Authorization` header.
    pub authorization: String,
    /// The text field `model` of the form.
    pub model: String,
    /// The file name of the part `file`.
    pub file_name: String,
    /// The MIME type of the part `file`.
    pub mime_type: String,
    /// The body of the part `file`.
    pub wav: Vec<u8>,
}

/// Prepares the upload for a transcription.
///
/// Without a key nothing is prepared, so nothing can be sent. The endpoint
/// always takes the bearer scheme.
pub fn prepare_transcription(api_key: &str, base_url: &str, model: &str, samples: &Vec<i16>) -> (upload:
    Result<TranscriptionUpload, ClientError>)
    ensures
        api_key@.len() == 0 <==> upload is Err && upload->Err_0 == ClientError::MissingCredential,
        upload is Err ==> upload->Err_0 == ClientError::MissingCredential || upload->Err_0
            == ClientError::AudioEncodingFailure,
        upload is Ok <==> api_key@.len() > 0 && samples@.len() <= MAX_SAMPLES,
        upload is Err && api_key@.len() > 0 ==> upload->Err_0 == ClientError::AudioEncodingFailure,
        upload is Ok ==> {
            &&& upload->Ok_0.url@ == endpoint(base_url@, "/audio/transcriptions"@)
            &&& upload->Ok_0.authorization@ == "Bearer "@ + api_key@
            &&& upload->Ok_0.model@ == model@
            &&& upload->Ok_0.file_name@ == "audio.wav"@
            &&& upload->Ok_0.mime_type@ == "audio/wav"@
            &&& upload->Ok_0.wav@ == wav_container(CHANNELS, SAMPLE_RATE, samples@)
        },
{
    if api_key.unicode_len() == 0 {
        return Err(ClientError::MissingCredential);
    }
    let url = transcriptions_url(base_url);
    match encode_wav(samples) {
        Ok(wav) => Ok(
            TranscriptionUpload {
                url,
                authorization: String::from_str("Bearer ").concat(api_key),
                model: String::from_str(model),
                file_name: String::from_str("audio.wav"),
                mime_type: String::from_str("audio/wav"),
                wav,
            },
        ),
        Err(_) => Err(ClientError::AudioEncodingFailure),
    }
}

/// The message that a provider's error body carries under `error.message`.
pub open spec fn provider_message(doc: Option<Json>) -> Option<Seq<char>> {
    match doc {
        Some(d) => match d.field("error"@) {
            Some(error) => error.field_text("message"@),
            None => None,
        },
        None => None,
    }
}

/// The transcript that a success body carries under `text`.
pub open spec fn transcript(doc: Option<Json>) -> Option<Seq<char>> {
    match doc {
        Some(d) => d.field_text("text"@),
        None => None,
    }
}

/// What a transcription answered with `status` and `body` amounts to.
pub open spec fn transcription_outcome_is(
    outcome: Result<String, ClientError>,
    status: u16,
    body: Seq<char>,
    doc: Option<Json>,
) -> bool {
    if !is_success(status) {
        match provider_message(doc) {
            Some(message) => outcome is Err && outcome->Err_0.is_service_failure(
                Operation::Transcription,
                status,
                message,
            ),
            None => outcome is Err && outcome->Err_0.is_api_failure(
                Operation::Transcription,
                status,
                body,
            ),
        }
    } else {
        match transcript(doc) {
            Some(text) => outcome is Ok && outcome->Ok_0@ == text,
            None => outcome is Err && outcome->Err_0.is_shape_mismatch(Operation::Transcription),
        }
    }
}

/// Turns a parsed answer to a transcription into the transcript, or into the
/// failure that the status or the shape reports. A failure carries the
/// provider's own message where the body has one, else the body as it is.
pub fn transcription_from_response(status: u16, body: &str, doc: Option<Json>) -> (outcome: Result<
    String,
    ClientError,
>)
    ensures
        transcription_outcome_is(outcome, status, body@, doc),
{
    if !status_is_success(status) {
        let reported = match &doc {
            Some(d) => match d.get("error") {
                Some(error) => error.get_str("message"),
                None => None,
            },
            None => None,
        };
        let operation = Operation::Transcription;
        return match reported {
            Some(m) => Err(
                ClientError::ApiFailure {
                    operation,
                    status,
                    message: String::from_str(m),
                    service_message: true,
                },
            ),
            None => Err(
                ClientError::ApiFailure {
                    operation,
                    status,
                    message: String::from_str(body),
                    service_message: false,
                },
            ),
        };
    }
    let text = match &doc {
        Some(d) => d.get_str("text"),
        None => None,
    };
    match text {
        Some(t) => Ok(String::from_str(t)),
        None => Err(ClientError::ResponseShapeMismatch { operation: Operation::Transcription }),
    }
}

/// Interprets the answer to a transcription: its status and its body.
pub fn interpret_transcription_response(status: u16, body: &str) -> (outcome: Result<
    String,
    ClientError,
>)
    ensures
        transcription_outcome_is(outcome, status, body@, json_document(body@)),
{
    transcription_from_response(status, body, parse_document(body))
}

} // verus!
