use cleuly::stt::is_supported_format;
use cleuly::stt::to_response;
use cleuly::stt::SttClient;
use cleuly::stt::SttError;
use cleuly::stt::SttParsed;
use cleuly::stt::SttTranscription;

fn client() -> SttClient {
    SttClient::new(Some("gsk-key".to_string()), None, None).unwrap()
}

#[test]
fn test_stt_client_requires_nonempty_key() {
    assert!(matches!(
        SttClient::new(None, None, None).unwrap_err(),
        SttError::MissingApiKey
    ));
    assert!(matches!(
        SttClient::new(Some(String::new()), None, None).unwrap_err(),
        SttError::MissingApiKey
    ));
    let c = client();
    assert_eq!(c.base_url, "https://api.groq.com/openai/v1");
    assert_eq!(c.model, "whisper-large-v3-turbo");
}

#[test]
fn test_transcription_url() {
    assert_eq!(
        client().transcription_url(),
        "https://api.groq.com/openai/v1/audio/transcriptions"
    );
}

#[test]
fn test_supported_formats() {
    let formats = SttClient::supported_formats();
    assert_eq!(formats, vec!["mp3", "wav", "webm", "ogg", "m4a", "flac", "mp4"]);
}

#[test]
fn test_mime_types_for_known_extensions() {
    assert_eq!(SttClient::get_mime_type("a.mp3"), "audio/mpeg");
    assert_eq!(SttClient::get_mime_type("a.wav"), "audio/wav");
    assert_eq!(SttClient::get_mime_type("a.webm"), "audio/webm");
    assert_eq!(SttClient::get_mime_type("a.ogg"), "audio/ogg");
    assert_eq!(SttClient::get_mime_type("a.m4a"), "audio/m4a");
    assert_eq!(SttClient::get_mime_type("a.flac"), "audio/flac");
    assert_eq!(SttClient::get_mime_type("a.mp4"), "audio/mp4");
}

#[test]
fn test_mime_type_is_case_insensitive() {
    assert_eq!(SttClient::get_mime_type("VOICE.MP3"), "audio/mpeg");
    assert_eq!(SttClient::get_mime_type("Clip.WeBm"), "audio/webm");
}

#[test]
fn test_mime_type_unknown_extension() {
    assert_eq!(SttClient::get_mime_type("a.txt"), "application/octet-stream");
    assert_eq!(SttClient::get_mime_type("noextension"), "application/octet-stream");
    assert_eq!(SttClient::get_mime_type("archive.tar.gz"), "application/octet-stream");
}

#[test]
fn test_is_supported_format() {
    assert!(is_supported_format("take1.mp3"));
    assert!(is_supported_format("take1.FLAC"));
    assert!(!is_supported_format("take1.txt"));
    // A dotless name counts as its own extension, as `rsplit` has it.
    assert!(is_supported_format("mp3"));
    assert!(!is_supported_format("wav.backup"));
    assert!(is_supported_format("a.b.wav"));
}

#[test]
fn test_transcribe_response_error_paths() {
    let c = client();
    let r = c.transcribe_response(401, "{\"error\":{\"message\":\"invalid key\"}}", None);
    match r {
        Err(SttError::ApiError(m)) => assert_eq!(m, "invalid key"),
        other => panic!("expected ApiError, got {:?}", other),
    }
    let raw = c.transcribe_response(500, "boom", None);
    match raw {
        Err(SttError::ApiError(m)) => assert_eq!(m, "boom"),
        other => panic!("expected ApiError, got {:?}", other),
    }
    let undecodable = c.transcribe_response(200, "{}", None);
    match undecodable {
        Err(SttError::RequestError(m)) => assert_eq!(m, "error decoding response body"),
        other => panic!("expected RequestError, got {:?}", other),
    }
}

#[test]
fn test_transcribe_response_success_stamps_model() {
    let c = client();
    let parsed = SttParsed {
        text: "hello world".to_string(),
        language: Some("en".to_string()),
        duration_ms: Some(1500),
    };
    let r = c.transcribe_response(200, "", Some(parsed)).unwrap();
    assert_eq!(r.text, "hello world");
    assert_eq!(r.language.as_deref(), Some("en"));
    assert_eq!(r.duration_ms, Some(1500));
    assert_eq!(r.model, "whisper-large-v3-turbo");
}

#[test]
fn test_stt_transcription_record() {
    let mut t = SttTranscription::new(
        "words".to_string(),
        Some("en".to_string()),
        Some(2000),
        "whisper-large-v3-turbo".to_string(),
        Some("clip.wav".to_string()),
        Some(44100),
        None,
        0,
    );
    assert!(t.id.is_none());
    assert!(t.ai_response.is_none());
    t.id = Some(7);
    let r = to_response(&t);
    assert_eq!(r.id, "7");
    assert_eq!(r.text, "words");
    assert_eq!(r.duration_ms, Some(2000));
    assert_eq!(r.created_at, "1970-01-01T00:00:00+00:00");
}

#[test]
fn test_stt_error_message_rendering() {
    assert_eq!(
        SttError::IoError("disk gone".to_string()).message(),
        "IO error: disk gone"
    );
    assert_eq!(SttError::MissingApiKey.message(), "Missing API key");
}
