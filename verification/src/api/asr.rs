//! Transcription of audio: what is accepted, and what is answered.

use vstd::prelude::*;

use crate::agent::{self, Effect};
use crate::asr::MAX_AUDIO_BYTES;
use crate::error::ApiError;
use crate::json;
use crate::outside;
use crate::protocol::api::{AsrResponse, ErrorCode, ErrorDetails};
use crate::text;

verus! {

/// The fields of an upload that were read so far.
#[derive(Debug, PartialEq)]
pub struct Upload {
    pub audio: Option<Vec<u8>>,
    pub mime: Option<String>,
    pub language: Option<String>,
}

/// A field of an upload.
#[derive(Debug, PartialEq)]
pub enum UploadField {
    /// The audio, with its type if it has one.
    Audio { mime: Option<String>, bytes: Vec<u8> },
    Language(String),
    Other,
}

/// What to transcribe.
#[derive(Debug, PartialEq)]
pub struct AsrRequest {
    pub audio: Vec<u8>,
    pub mime: String,
    pub language: Option<String>,
}

/// The types of audio that are accepted.
pub open spec fn accepted_mime(mime: Seq<char>) -> bool {
    ||| mime == "audio/webm"@
    ||| mime == "audio/webm;codecs=opus"@
    ||| mime == "audio/opus"@
    ||| mime == "audio/wav"@
    ||| mime == "audio/x-wav"@
    ||| mime == "audio/m4a"@
    ||| mime == "audio/mp4"@
}

/// What a field does to an upload.
pub open spec fn takes(
    before: Upload,
    field: UploadField,
    r: Result<(), ApiError>,
    after: Upload,
) -> bool {
    match field {
        UploadField::Audio { mime, bytes } => {
            &&& after.mime == mime
            &&& after.language == before.language
            &&& if bytes@.len() > MAX_AUDIO_BYTES {
                r matches Err(e) && e.status == 413 && e.code == ErrorCode::ValidationFailed
                    && e.message@ == "audio excede 25 MB"@ && e.details is None && after.audio
                    == before.audio
            } else {
                r is Ok && after.audio == Some(bytes)
            }
        },
        UploadField::Language(language) => r is Ok && after.language == Some(language)
            && after.audio == before.audio && after.mime == before.mime,
        UploadField::Other => r is Ok && after == before,
    }
}

/// What an upload comes to: what to transcribe, or why it is refused.
pub open spec fn finishes(upload: Upload, r: Result<AsrRequest, ApiError>) -> bool {
    match upload.audio {
        None => r matches Err(e) && e.says(ErrorCode::ValidationFailed, "falta el campo audio"@)
            && e.details is None,
        Some(audio) => if accepted_mime(upload.mime_text()) {
            r matches Ok(req) && req.audio == audio && req.mime@ == upload.mime_text()
                && req.language == upload.language
        } else {
            r matches Err(e) && e.says(ErrorCode::ValidationFailed, "tipo de audio no permitido"@)
                && (e.details matches Some(ErrorDetails::Mime(m)) && m@ == upload.mime_text())
        },
    }
}

impl Upload {
    /// No fields.
    pub fn new() -> (r: Self)
        ensures
            r.audio is None,
            r.mime is None,
            r.language is None,
    {
        Upload { audio: None, mime: None, language: None }
    }

    /// Takes in a field. Audio above the limit is refused; a field that comes
    /// again replaces the one before.
    pub fn take(&mut self, field: UploadField) -> (r: Result<(), ApiError>)
        ensures
            takes(*old(self), field, r, *final(self)),
    {
        match field {
            UploadField::Audio { mime, bytes } => {
                self.mime = mime;
                if bytes.len() > MAX_AUDIO_BYTES {
                    return Err(ApiError::too_large("audio excede 25 MB"));
                }
                self.audio = Some(bytes);
            },
            UploadField::Language(language) => {
                self.language = Some(language);
            },
            UploadField::Other => {},
        }
        Ok(())
    }

    /// The type of the audio, empty if it has none.
    pub open spec fn mime_text(self) -> Seq<char> {
        match self.mime {
            Some(m) => m@,
            None => Seq::empty(),
        }
    }

    /// What to transcribe, or why the upload is refused.
    pub fn finish(self) -> (r: Result<AsrRequest, ApiError>)
        ensures
            finishes(self, r),
    {
        let audio = match self.audio {
            Some(audio) => audio,
            None => {
                return Err(ApiError::validation("falta el campo audio".to_owned(), None));
            },
        };
        let mime = match self.mime {
            Some(m) => m,
            None => {
                let none = String::new();
                assert(none@ == Seq::<char>::empty());
                none
            },
        };
        let m = mime.as_str();
        let accepted = text::same(m, "audio/webm") || text::same(m, "audio/webm;codecs=opus")
            || text::same(m, "audio/opus") || text::same(m, "audio/wav") || text::same(
            m,
            "audio/x-wav",
        ) || text::same(m, "audio/m4a") || text::same(m, "audio/mp4");
        if !accepted {
            return Err(
                ApiError::validation(
                    "tipo de audio no permitido".to_owned(),
                    Some(ErrorDetails::Mime(mime)),
                ),
            );
        }
        Ok(AsrRequest { audio, mime, language: self.language })
    }
}

/// What the audit log holds of a transcription.
pub open spec fn asr_members(duration_ms: u64, bytes: nat) -> Seq<(Seq<char>, json::FieldView)> {
    seq![
        ("duration_ms"@, json::FieldView::Number(duration_ms)),
        ("bytes"@, json::FieldView::Number(bytes as u64)),
    ]
}

/// What a transcription is answered with.
pub open spec fn answers(
    result: Option<AsrResponse>,
    bytes: nat,
    r: Result<(AsrResponse, Effect), ApiError>,
) -> bool {
    match result {
        Some(response) => r matches Ok((answer, effect)) && answer == response && agent::is_audit(
            effect,
            "asr"@,
            asr_members(response.duration_ms, bytes),
        ),
        None => r matches Err(e) && e.says(ErrorCode::AsrFailed, "falló la transcripción"@)
            && e.details is None,
    }
}

/// The answer to a transcription and its entry in the audit log, or the error
/// of one that failed upstream.
pub fn transcribe(result: Option<AsrResponse>, bytes: usize) -> (r: Result<
    (AsrResponse, Effect),
    ApiError,
>)
    ensures
        answers(result, bytes as nat, r),
{
    match result {
        Some(response) => {
            let mut members: Vec<(String, json::Field)> = Vec::new();
            members.push(json::number_member("duration_ms", response.duration_ms));
            members.push(json::number_member("bytes", bytes as u64));
            assert(json::members_view(members@) == asr_members(
                response.duration_ms,
                bytes as nat,
            ));
            proof {
                json::lemma_reserved_key();
                reveal_strlit("duration_ms");
                reveal_strlit("bytes");
                assert(members@[0].0@.len() == 11);
                assert(members@[1].0@.len() == 5);
                json::lemma_distinct_keys(members@);
            }
            let effect = Effect::Audit {
                kind: "asr".to_owned(),
                detail: json::object(&members),
            };
            Ok((response, effect))
        },
        None => Err(ApiError::asr_failed()),
    }
}

/// Law: of the fields of an upload the last audio of at most 26214400 bytes and
/// the last language count; audio above that is refused and leaves the audio
/// before it in place, and no field touches what another one set, but for the
/// type, which goes with the audio.
pub proof fn law_upload_fields(
    before: Upload,
    field: UploadField,
    r: Result<(), ApiError>,
    after: Upload,
)
    requires
        takes(before, field, r, after),
    ensures
        r is Err <==> (field matches UploadField::Audio { bytes, .. } && bytes@.len() > 26_214_400),
        r matches Err(e) ==> e.status == 413 && after.audio == before.audio,
        field matches UploadField::Audio { mime, bytes } ==> after.mime == mime && after.language
            == before.language && (r is Ok ==> after.audio == Some(bytes)),
        field matches UploadField::Language(l) ==> after.language == Some(l) && after.audio
            == before.audio && after.mime == before.mime,
        field is Other ==> after == before,
{
}

/// Law: an upload is transcribed exactly when it holds audio of one of the seven
/// types that are accepted, spelled as they are; its bytes, its type and its
/// language go on as they came.
pub proof fn law_upload_is_transcribed_iff(upload: Upload, r: Result<AsrRequest, ApiError>)
    requires
        finishes(upload, r),
    ensures
        r is Ok <==> upload.audio is Some && upload.mime is Some && (upload.mime->0@
            == "audio/webm"@ || upload.mime->0@ == "audio/webm;codecs=opus"@ || upload.mime->0@
            == "audio/opus"@ || upload.mime->0@ == "audio/wav"@ || upload.mime->0@
            == "audio/x-wav"@ || upload.mime->0@ == "audio/m4a"@ || upload.mime->0@
            == "audio/mp4"@),
        r matches Ok(req) ==> upload.audio == Some(req.audio) && req.mime@ == upload.mime->0@
            && req.language == upload.language,
        r matches Err(e) ==> e.status == 422 && (upload.audio is None <==> e.details is None),
{
    reveal_strlit("audio/webm");
    reveal_strlit("audio/webm;codecs=opus");
    reveal_strlit("audio/opus");
    reveal_strlit("audio/wav");
    reveal_strlit("audio/x-wav");
    reveal_strlit("audio/m4a");
    reveal_strlit("audio/mp4");
    if upload.mime is None {
        assert(upload.mime_text().len() == 0);
    }
}

/// Law: a transcription is answered as it is and audited with its duration and
/// the size of the audio, which read back; a failed one is an error upstream.
pub proof fn law_transcription_is_audited(
    result: Option<AsrResponse>,
    bytes: nat,
    r: Result<(AsrResponse, Effect), ApiError>,
)
    requires
        answers(result, bytes, r),
        bytes <= u64::MAX,
    ensures
        r is Ok <==> result is Some,
        r matches Err(e) ==> e.status == 502,
        r matches Ok((answer, effect)) ==> result == Some(answer) && (effect matches Effect::Audit {
            kind,
            detail,
        } && kind@ == "asr"@ && outside::json_u64_member(detail@, "duration_ms"@) == Some(
            answer.duration_ms,
        ) && (outside::json_u64_member(detail@, "bytes"@) matches Some(n) && n == bytes)),
{
    match result {
        Some(response) => {
            let members = asr_members(response.duration_ms, bytes);
            assert(members[0].0 == "duration_ms"@ && members[1].0 == "bytes"@);
        },
        None => {},
    }
}

} // verus!
