//! Speech recognition through the daemon: a client never sees the provider's
//! key.

use vstd::prelude::*;

use crate::protocol::api::AsrResponse;
use crate::text;

verus! {

/// Where audio is sent.
pub const GROQ_ASR_URL: &'static str = "https://api.groq.com/openai/v1/audio/transcriptions";

/// The model that transcribes.
pub const ASR_MODEL: &'static str = "whisper-large-v3";

/// Bytes of audio that are accepted.
pub const MAX_AUDIO_BYTES: usize = 26_214_400;

/// Why a transcription failed.
#[derive(Debug, Clone, Copy, PartialEq, Eq, Structural)]
pub enum TranscribeError {
    /// The provider could not be reached, refused, or gave no transcription.
    Upstream,
}

impl TranscribeError {
    /// The message for the log.
    pub fn text(&self) -> (r: &'static str)
        ensures
            r@ == "upstream ASR failed"@,
    {
        "upstream ASR failed"
    }
}

/// Transcriber without a network: it always hears the same.
pub struct MockTranscriber;

impl MockTranscriber {
    /// The transcription.
    pub fn transcribe(&self) -> (r: AsrResponse)
        ensures
            r.text@ == "transcripción de prueba"@,
            r.duration_ms == 0,
            r.model@ == "whisper-large-v3"@,
    {
        AsrResponse {
            text: "transcripción de prueba".to_owned(),
            duration_ms: 0,
            model: "whisper-large-v3".to_owned(),
        }
    }
}

/// The type of audio without its parameters.
pub open spec fn base_mime(mime: Seq<char>) -> Seq<char> {
    text::split(mime, ';')[0]
}

/// The type of audio without its parameters.
pub fn part_mime(mime: &str) -> (r: String)
    ensures
        r@ == base_mime(mime@),
{
    let pieces = text::split_on(mime, ';');
    proof {
        text::lemma_split_nonempty(mime@, text::is_char(';'));
        assert(text::views(pieces@)[0] == pieces@[0]@);
    }
    pieces[0].clone()
}

/// The file extension of a type of audio, by which the provider tells the
/// format.
pub open spec fn extension_of(mime: Seq<char>) -> Seq<char> {
    let m = text::trim(base_mime(mime));
    if m == "audio/wav"@ || m == "audio/x-wav"@ {
        "wav"@
    } else if m == "audio/m4a"@ || m == "audio/mp4"@ {
        "m4a"@
    } else if m == "audio/opus"@ {
        "ogg"@
    } else {
        "webm"@
    }
}

/// The file extension of a type of audio.
pub fn ext_for(mime: &str) -> (r: &'static str)
    ensures
        r@ == extension_of(mime@),
{
    let base = text::trimmed(part_mime(mime).as_str());
    let m = base.as_str();
    if text::same(m, "audio/wav") || text::same(m, "audio/x-wav") {
        "wav"
    } else if text::same(m, "audio/m4a") || text::same(m, "audio/mp4") {
        "m4a"
    } else if text::same(m, "audio/opus") {
        "ogg"
    } else {
        "webm"
    }
}

/// The name under which audio is sent.
pub fn file_name(mime: &str) -> (r: String)
    ensures
        r@ == "audio."@ + extension_of(mime@),
{
    text::join2("audio.", ext_for(mime))
}

/// What came of sending audio.
#[derive(Debug, PartialEq)]
pub enum Sent {
    /// The provider could not be reached.
    Unreachable,
    /// The provider answered with a status, and with the text that its answer
    /// holds, if it holds one.
    Answered { status: u16, text: Option<String> },
}

/// What an answer stands for.
pub open spec fn stands_for(sent: Sent, r: Result<AsrResponse, TranscribeError>) -> bool {
    match sent {
        Sent::Answered { status, text: Some(t) } if 200 <= status < 300 => {
            &&& r matches Ok(response)
            &&& response.text == t
            &&& response.duration_ms == 0
            &&& response.model@ == "whisper-large-v3"@
        },
        _ => r == Err::<AsrResponse, TranscribeError>(TranscribeError::Upstream),
    }
}

/// The transcription that an answer stands for: it takes a success and a text.
pub fn transcription(sent: Sent) -> (r: Result<AsrResponse, TranscribeError>)
    ensures
        stands_for(sent, r),
{
    match sent {
        Sent::Answered { status, text: Some(t) } => {
            if 200 <= status && status < 300 {
                Ok(AsrResponse { text: t, duration_ms: 0, model: ASR_MODEL.to_owned() })
            } else {
                Err(TranscribeError::Upstream)
            }
        },
        _ => Err(TranscribeError::Upstream),
    }
}

/// Law: a transcription takes an answer with a status of success and a text,
/// and is that text; everything else failed upstream.
pub proof fn law_transcription_takes_a_text(sent: Sent, r: Result<AsrResponse, TranscribeError>)
    requires
        stands_for(sent, r),
    ensures
        r is Ok <==> sent is Answered && sent->status >= 200 && sent->status <= 299
            && sent->text is Some,
        r matches Ok(response) ==> sent->text == Some(response.text),
{
}

/// Law: audio is sent under the extension of its type, whatever parameters
/// follow the type: waves as `wav`, MPEG audio as `m4a`, Opus as `ogg`, and
/// the rest as `webm`.
pub proof fn law_extension(base: Seq<char>, parameters: Seq<char>)
    requires
        !base.contains(';'),
    ensures
        base_mime(base) == base,
        base_mime(base + ";"@ + parameters) == base,
        extension_of(base + ";"@ + parameters) == extension_of(base),
        text::trim(base) == "audio/wav"@ || text::trim(base) == "audio/x-wav"@ ==> extension_of(
            base,
        ) == "wav"@,
        text::trim(base) == "audio/m4a"@ || text::trim(base) == "audio/mp4"@ ==> extension_of(base)
            == "m4a"@,
        text::trim(base) == "audio/opus"@ ==> extension_of(base) == "ogg"@,
        text::trim(base) == "audio/webm"@ ==> extension_of(base) == "webm"@,
{
    reveal_strlit(";");
    assert(";"@ == seq![';']);
    text::law_split_whole(base, ';');
    text::law_split_first(base, ';', parameters);
    reveal_strlit("audio/webm");
    reveal_strlit("audio/opus");
    reveal_strlit("audio/wav");
    reveal_strlit("audio/x-wav");
    reveal_strlit("audio/m4a");
    reveal_strlit("audio/mp4");
    assert("audio/webm"@.len() == 10 && "audio/opus"@.len() == 10 && "audio/x-wav"@.len() == 11);
    assert("audio/wav"@.len() == 9 && "audio/m4a"@.len() == 9 && "audio/mp4"@.len() == 9);
    assert("audio/webm"@[6] == 'w' && "audio/opus"@[6] == 'o');
    assert("audio/wav"@[6] == 'w' && "audio/m4a"@[6] == 'm' && "audio/mp4"@[6] == 'm');
}

} // verus!
