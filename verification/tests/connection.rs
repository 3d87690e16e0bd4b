use eleventh_echo::network::{
    ControlMessage, ElevenLabsClient, NetworkError, API_KEY_HEADER, AUDIO_FORMAT,
    AUDIO_FORMAT_PARAM, ELEVENLABS_WSS_URL, MODEL_PARAM,
};

#[test]
fn connection_constants_have_their_wire_spelling() {
    assert_eq!(ELEVENLABS_WSS_URL, "wss://api.elevenlabs.io/v1/speech-to-text/realtime");
    assert_eq!(MODEL_PARAM, "model_id");
    assert_eq!(AUDIO_FORMAT_PARAM, "audio_format");
    assert_eq!(AUDIO_FORMAT, "pcm_16000");
    assert_eq!(API_KEY_HEADER, "xi-api-key");
}

#[test]
fn client_keeps_its_credential_and_model() {
    let client = ElevenLabsClient::new("secret".to_string(), "scribe_v2".to_string());
    assert_eq!(client.api_key(), "secret");
    assert_eq!(client.model_id(), "scribe_v2");
}

#[test]
fn endpoint_carries_model_and_audio_format() {
    let client = ElevenLabsClient::new("secret".to_string(), "scribe_v2".to_string());
    assert_eq!(
        client.endpoint(),
        Ok("wss://api.elevenlabs.io/v1/speech-to-text/realtime?model_id=scribe_v2&audio_format=pcm_16000"
            .to_string())
    );
}

#[test]
fn endpoint_escapes_the_model() {
    let client = ElevenLabsClient::new("secret".to_string(), "a b&c=d".to_string());
    assert_eq!(
        client.endpoint(),
        Ok("wss://api.elevenlabs.io/v1/speech-to-text/realtime?model_id=a+b%26c%3Dd&audio_format=pcm_16000"
            .to_string())
    );
}

#[test]
fn handshake_request_addresses_the_endpoint_with_the_credential() {
    let client = ElevenLabsClient::new("secret-key".to_string(), "scribe_v2".to_string());
    let request = client.handshake_request().unwrap();
    assert_eq!(
        request.uri().to_string(),
        "wss://api.elevenlabs.io/v1/speech-to-text/realtime?model_id=scribe_v2&audio_format=pcm_16000"
    );
    assert_eq!(request.headers().len(), 1);
    assert_eq!(request.headers().get("xi-api-key").unwrap().to_str().unwrap(), "secret-key");
}

#[test]
fn credential_that_is_no_header_value_is_refused() {
    let client = ElevenLabsClient::new("line\nbreak".to_string(), "scribe_v2".to_string());
    assert_eq!(client.handshake_request().err(), Some(NetworkError::InvalidRequest));
}

#[test]
fn network_errors_describe_themselves() {
    assert_eq!(NetworkError::InvalidEndpoint.message(), "invalid endpoint URL");
    assert_eq!(NetworkError::InvalidRequest.message(), "invalid connection request");
    assert_eq!(NetworkError::ConnectionFailed.message(), "connection failed");
}

#[test]
fn stop_is_the_only_control_message() {
    let message = ControlMessage::Stop;
    assert_eq!(message.clone(), ControlMessage::Stop);
    assert!(matches!(message, ControlMessage::Stop));
}

#[test]
fn long_model_names_are_carried_whole() {
    let model = "m".repeat(5000);
    let client = ElevenLabsClient::new("secret".to_string(), model.clone());
    let expected = format!(
        "wss://api.elevenlabs.io/v1/speech-to-text/realtime?model_id={}&audio_format=pcm_16000",
        model
    );
    assert_eq!(client.endpoint(), Ok(expected));
}

#[test]
fn a_fragment_mark_in_the_model_is_escaped() {
    let client = ElevenLabsClient::new("secret".to_string(), "v#2".to_string());
    assert_eq!(
        client.endpoint(),
        Ok("wss://api.elevenlabs.io/v1/speech-to-text/realtime?model_id=v%232&audio_format=pcm_16000"
            .to_string())
    );
}
