use groan::audio::{repair_wav_header, AudioError};
use groan::codec::{decode_bytes, embedded_image, encode_bytes, is_json, MalformedPayload};
use groan::events::{
    ChatRequest, ChatResponse, OpenAiMessage, ServiceCall, ServiceMessage, ServiceRequest,
    SpeechRequest, SpeechResponse,
};
use groan::headers::Headers;
use groan::params::{join_list, split_list};
use groan::relay::{
    chat_completion, finish_sound_request, image_data_url, query_service, send_chat_request,
    send_sound_request, speech_request, Next, Step, MAX_TOKENS, MODEL, SYSTEM_PROMPT,
};
use groan::types::{
    ImageOutputFormat, InputState, OutputKind, RequestBody, RequestParams, ResponseBody,
};

fn strings(items: &[&str]) -> Vec<String> {
    items.iter().map(|item| item.to_string()).collect()
}

fn params(output: &[&str]) -> RequestParams {
    RequestParams { source_lang: None, target_lang: Some("en".to_string()), output: strings(output) }
}

fn state() -> InputState {
    InputState {
        paused: 0,
        b: 0,
        y: 0,
        select: 0,
        start: 0,
        up: 0,
        down: 0,
        left: 0,
        right: 0,
        a: 1,
        x: 0,
        l: 0,
        r: 0,
        l2: 0,
        r2: 0,
        l3: 0,
        r3: 0,
    }
}

fn body(format: Option<ImageOutputFormat>) -> RequestBody {
    RequestBody {
        image: "AQID".to_string(),
        format,
        coords: None,
        viewport: Some((320, 240)),
        label: "game".to_string(),
        state: state(),
    }
}

fn only(text: Option<&str>, error: Option<&str>, sound: Option<&str>) -> ResponseBody {
    ResponseBody {
        image: None,
        sound: sound.map(str::to_string),
        text: text.map(str::to_string),
        text_position: None,
        press: None,
        error: error.map(str::to_string),
        auto_request: None,
    }
}

fn failure(message: &str) -> Step {
    Step { emit: vec![], next: Next::Reply(only(None, Some(message), None)) }
}

fn expected_chat(url: &str) -> ChatRequest {
    ChatRequest {
        model: "gpt-4o-mini".to_string(),
        max_tokens: 300,
        system: SYSTEM_PROMPT.to_string(),
        image_url: url.to_string(),
    }
}

fn wav(size: [u8; 4], samples: usize) -> Vec<u8> {
    let mut sound = b"RIFF\xff\xff\xff\xffWAVEfmt ".to_vec();
    sound.extend_from_slice(&[16, 0, 0, 0, 1, 0, 1, 0, 0x44, 0xac, 0, 0, 0x88, 0x58, 1, 0, 2, 0, 16, 0]);
    sound.extend_from_slice(b"data");
    sound.extend_from_slice(&size);
    assert_eq!(sound.len(), 44);
    sound.extend(std::iter::repeat(7u8).take(samples));
    sound
}

#[test]
fn response_body_text_sets_only_the_text() {
    assert_eq!(ResponseBody::text("A red square."), only(Some("A red square."), None, None));
    assert_eq!(ResponseBody::text(""), only(Some(""), None, None));
}

#[test]
fn response_body_error_sets_only_the_error() {
    assert_eq!(ResponseBody::error("Not implemented"), only(None, Some("Not implemented"), None));
}

#[test]
fn response_body_sound_is_base64_of_the_audio() {
    assert_eq!(ResponseBody::sound(b"hello world~"), only(None, None, Some("aGVsbG8gd29ybGR+")));
    assert_eq!(ResponseBody::sound(&[0xff, 0xec, 0x20, 0x55, 0]), only(None, None, Some("/+wgVQA=")));
    assert_eq!(ResponseBody::sound(&[]), only(None, None, Some("")));
}

#[test]
fn response_body_default_is_empty() {
    assert_eq!(ResponseBody::default(), only(None, None, None));
    assert_eq!(ResponseBody::empty(), only(None, None, None));
}

#[test]
fn service_call_starts_without_exchanges_and_answer() {
    let request = ServiceRequest { headers: Headers::new(), params: "p".to_string(), body: vec![1, 2] };
    let call = ServiceCall::new(request.clone());
    assert_eq!(call.client_request, request);
    assert!(call.openai_messages.is_empty());
    assert_eq!(call.client_response, None);
}

#[test]
fn embedded_image_decodes_the_image_member() {
    assert_eq!(embedded_image(b"{\"image\":\"AQID\"}"), Ok(vec![1, 2, 3]));
    assert_eq!(
        embedded_image(b" { \"label\": \"x\", \"image\": \"/+wgVQA=\" } "),
        Ok(vec![0xff, 0xec, 0x20, 0x55, 0])
    );
    assert_eq!(embedded_image(b"{\"image\":\"\"}"), Ok(vec![]));
}

#[test]
fn embedded_image_names_what_is_wrong() {
    assert_eq!(embedded_image(b""), Err(MalformedPayload::NotJson));
    assert_eq!(embedded_image(b"{\"image\":"), Err(MalformedPayload::NotJson));
    assert_eq!(embedded_image(b"{}"), Err(MalformedPayload::NoImage));
    assert_eq!(embedded_image(b"[\"image\"]"), Err(MalformedPayload::NoImage));
    assert_eq!(embedded_image(b"\"image\""), Err(MalformedPayload::NoImage));
    assert_eq!(embedded_image(b"{\"image\":null}"), Err(MalformedPayload::NoImage));
    assert_eq!(embedded_image(b"{\"image\":[\"AQID\"]}"), Err(MalformedPayload::NoImage));
    assert_eq!(embedded_image(b"{\"image\":\"AQI\"}"), Err(MalformedPayload::BadBase64));
    assert_eq!(embedded_image(b"{\"image\":\"A Q I D\"}"), Err(MalformedPayload::BadBase64));
}

#[test]
fn decode_bytes_reads_standard_base64() {
    assert_eq!(decode_bytes("aGVsbG8gd29ybGR+"), Ok(b"hello world~".to_vec()));
    assert_eq!(decode_bytes("+uwgVQA="), Ok(vec![0xfa, 0xec, 0x20, 0x55, 0]));
    assert_eq!(decode_bytes("-_wgVQA="), Err(MalformedPayload::BadBase64));
    assert_eq!(decode_bytes("+uwgVQA"), Err(MalformedPayload::BadBase64));
}

#[test]
fn encode_bytes_writes_standard_base64() {
    assert_eq!(encode_bytes(b"hello world~"), "aGVsbG8gd29ybGR+");
    assert_eq!(encode_bytes(&[0xff, 0xec, 0x20, 0x55, 0]), "/+wgVQA=");
    assert_eq!(encode_bytes(&[1]), "AQ==");
    assert_eq!(encode_bytes(&[]), "");
    assert_eq!(decode_bytes(&encode_bytes(&[0, 1, 2, 254, 255])), Ok(vec![0, 1, 2, 254, 255]));
}

#[test]
fn is_json_accepts_documents_only() {
    assert!(is_json(b"{\"text\":\"A red square.\"}"));
    assert!(is_json(b"[1, 2]"));
    assert!(is_json(b"null"));
    assert!(!is_json(b""));
    assert!(!is_json(b"text=1"));
    assert!(!is_json(b"{\"text\":}"));
}

#[test]
fn output_kind_goes_by_the_leading_entries() {
    assert_eq!(params(&["text"]).output_kind(), OutputKind::Text);
    assert_eq!(params(&["text", "sound", "wav"]).output_kind(), OutputKind::Text);
    assert_eq!(params(&["sound", "wav"]).output_kind(), OutputKind::Sound);
    assert_eq!(params(&["sound", "wav", "text"]).output_kind(), OutputKind::Sound);
    assert_eq!(params(&["image", "png", "png-a"]).output_kind(), OutputKind::Image);
    assert_eq!(params(&["image", "png", "png-a", "text"]).output_kind(), OutputKind::Image);
    assert_eq!(params(&[]).output_kind(), OutputKind::Unknown);
    assert_eq!(params(&[""]).output_kind(), OutputKind::Unknown);
    assert_eq!(params(&["sound"]).output_kind(), OutputKind::Unknown);
    assert_eq!(params(&["sound", "mp3"]).output_kind(), OutputKind::Unknown);
    assert_eq!(params(&["wav", "sound"]).output_kind(), OutputKind::Unknown);
    assert_eq!(params(&["image", "png"]).output_kind(), OutputKind::Unknown);
    assert_eq!(params(&["image", "bmp", "png-a"]).output_kind(), OutputKind::Unknown);
    assert_eq!(params(&["Text"]).output_kind(), OutputKind::Unknown);
}

#[test]
fn split_list_cuts_at_every_comma() {
    assert_eq!(split_list("sound,wav"), strings(&["sound", "wav"]));
    assert_eq!(split_list("text"), strings(&["text"]));
    assert_eq!(split_list(""), strings(&[""]));
    assert_eq!(split_list(","), strings(&["", ""]));
    assert_eq!(split_list("a,,b,"), strings(&["a", "", "b", ""]));
    assert_eq!(split_list("image,png,png-a"), strings(&["image", "png", "png-a"]));
    assert_eq!(split_list("h\u{e9}llo,w\u{f6}rld \u{1f3ae}"), strings(&["h\u{e9}llo", "w\u{f6}rld \u{1f3ae}"]));
}

#[test]
fn join_list_puts_commas_between_entries() {
    assert_eq!(join_list(&strings(&["sound", "wav"])), "sound,wav");
    assert_eq!(join_list(&strings(&["text"])), "text");
    assert_eq!(join_list(&strings(&[])), "");
    assert_eq!(join_list(&strings(&["", ""])), ",");
    assert_eq!(join_list(&strings(&["a", "", "b", ""])), "a,,b,");
}

#[test]
fn split_and_join_undo_each_other() {
    for text in ["", "text", "sound,wav", ",,", "a,b,c,", ",x"] {
        assert_eq!(join_list(&split_list(text)), text);
    }
    for items in [strings(&["a"]), strings(&["", "b"]), strings(&["image", "png", "png-a"])] {
        assert_eq!(split_list(&join_list(&items)), items);
    }
}

#[test]
fn repair_fills_in_an_open_size() {
    let mut sound = wav([0xff; 4], 300);
    assert_eq!(repair_wav_header(&mut sound), Ok(()));
    assert_eq!(sound, wav([0x2c, 0x01, 0, 0], 300));

    let mut large = wav([0xff; 4], 0x01_02_03);
    assert_eq!(repair_wav_header(&mut large), Ok(()));
    assert_eq!(&large[40..44], &[0x03, 0x02, 0x01, 0x00]);
    assert_eq!(large.len(), 44 + 0x01_02_03);

    let mut bare = wav([0xff; 4], 0);
    assert_eq!(repair_wav_header(&mut bare), Ok(()));
    assert_eq!(bare, wav([0, 0, 0, 0], 0));
}

#[test]
fn repair_leaves_a_given_size_alone() {
    for size in [[0u8, 0, 0, 0], [0xff, 0xff, 0xff, 0x7f], [0xfe, 0xff, 0xff, 0xff], [1, 2, 3, 4]] {
        let mut sound = wav(size, 10);
        assert_eq!(repair_wav_header(&mut sound), Ok(()));
        assert_eq!(sound, wav(size, 10));
    }
}

#[test]
fn repair_refuses_audio_shorter_than_a_header() {
    let mut empty: Vec<u8> = vec![];
    assert_eq!(repair_wav_header(&mut empty), Err(AudioError::TooShort));
    assert!(empty.is_empty());
    let mut short = vec![0xff; 43];
    assert_eq!(repair_wav_header(&mut short), Err(AudioError::TooShort));
    assert_eq!(short, vec![0xff; 43]);
}

#[test]
fn data_url_names_the_format() {
    assert_eq!(image_data_url(None, "AQID"), "data:image/Png;base64,AQID");
    assert_eq!(image_data_url(Some(ImageOutputFormat::Png), "AQID"), "data:image/Png;base64,AQID");
    assert_eq!(image_data_url(Some(ImageOutputFormat::Bmp), "AQID"), "data:image/Bmp;base64,AQID");
    assert_eq!(image_data_url(Some(ImageOutputFormat::PngA), ""), "data:image/PngA;base64,");
}

#[test]
fn chat_completion_describes_the_screenshot() {
    assert_eq!(MODEL, "gpt-4o-mini");
    assert_eq!(MAX_TOKENS, 300);
    assert!(SYSTEM_PROMPT.starts_with("You are a narration service helping a visually impaired player"));
    assert!(SYSTEM_PROMPT.ends_with("Use video game terminology if appropriate."));
    assert_eq!(
        chat_completion(&body(Some(ImageOutputFormat::Bmp))),
        expected_chat("data:image/Bmp;base64,AQID")
    );
}

#[test]
fn query_service_asks_for_a_description_of_text_and_sound_requests() {
    for output in [vec!["text"], vec!["sound", "wav"]] {
        let step = query_service(&params(&output), &body(None));
        let request = expected_chat("data:image/Png;base64,AQID");
        assert_eq!(
            step,
            Step {
                emit: vec![OpenAiMessage::CreateChatCompletionRequest(request.clone())],
                next: Next::Chat(request),
            }
        );
    }
}

#[test]
fn query_service_answers_other_requests_with_an_error() {
    assert_eq!(
        query_service(&params(&["image", "png", "png-a"]), &body(None)),
        failure("Not implemented")
    );
    assert_eq!(
        query_service(&params(&["foo", "b\"ar"]), &body(None)),
        failure("Unknown output format [\"foo\", \"b\\\"ar\"]")
    );
    assert_eq!(query_service(&params(&[]), &body(None)), failure("Unknown output format []"));
}

#[test]
fn send_chat_request_answers_with_the_first_choice() {
    let description =
        ChatResponse { choices: vec![Some("A red square.".to_string()), Some("Other".to_string())] };
    assert_eq!(
        send_chat_request(Ok(description.clone())),
        Step {
            emit: vec![OpenAiMessage::CreateChatCompletionResponse(description)],
            next: Next::Reply(only(Some("A red square."), None, None)),
        }
    );
    let silent = ChatResponse { choices: vec![None, Some("Other".to_string())] };
    assert_eq!(
        send_chat_request(Ok(silent.clone())),
        Step {
            emit: vec![OpenAiMessage::CreateChatCompletionResponse(silent)],
            next: Next::Reply(only(None, Some("\"No content in response\""), None)),
        }
    );
    assert_eq!(send_chat_request(Err("timeout".to_string())), failure("timeout"));
}

#[test]
fn send_sound_request_hands_the_description_to_speech() {
    let description = ChatResponse { choices: vec![Some("A door.".to_string())] };
    let speech = SpeechRequest {
        input: "A door.".to_string(),
        model: "tts-1".to_string(),
        voice: "fable".to_string(),
        response_format: "wav".to_string(),
        speed_percent: 110,
    };
    assert_eq!(speech_request("A door."), speech);
    assert_eq!(
        send_sound_request(Ok(description.clone())),
        Step {
            emit: vec![
                OpenAiMessage::CreateChatCompletionResponse(description),
                OpenAiMessage::CreateSpeechRequest(speech.clone()),
            ],
            next: Next::Speech(speech),
        }
    );
    let silent = ChatResponse { choices: vec![None] };
    assert_eq!(
        send_sound_request(Ok(silent.clone())),
        Step {
            emit: vec![OpenAiMessage::CreateChatCompletionResponse(silent)],
            next: Next::Reply(only(None, Some("\"No content in response\""), None)),
        }
    );
    assert_eq!(send_sound_request(Err("quota".to_string())), failure("quota"));
}

#[test]
fn finish_sound_request_repairs_records_and_answers() {
    let step = finish_sound_request(Ok(wav([0xff; 4], 2)));
    let repaired = wav([2, 0, 0, 0], 2);
    let encoded = "UklGRv////9XQVZFZm10IBAAAAABAAEARKwAAIhYAQACABAAZGF0YQIAAAAHBw==";
    assert_eq!(
        step,
        Step {
            emit: vec![OpenAiMessage::CreateSpeechResponse(repaired)],
            next: Next::Reply(only(None, None, Some(encoded))),
        }
    );
    assert_eq!(finish_sound_request(Ok(vec![1, 2, 3])), failure("\"WAV file is too short\""));
    assert_eq!(finish_sound_request(Err("offline".to_string())), failure("offline"));
}

#[test]
fn provider_exchanges_convert_into_events() {
    let request = expected_chat("data:image/Png;base64,AQID");
    assert_eq!(
        ServiceMessage::from(request.clone()),
        ServiceMessage::OpenAiMessage(OpenAiMessage::CreateChatCompletionRequest(request))
    );
    let speech = speech_request("A door.");
    assert_eq!(
        ServiceMessage::from(speech.clone()),
        ServiceMessage::OpenAiMessage(OpenAiMessage::CreateSpeechRequest(speech))
    );
    let description = ChatResponse { choices: vec![None] };
    assert_eq!(
        ServiceMessage::from(description.clone()),
        ServiceMessage::OpenAiMessage(OpenAiMessage::CreateChatCompletionResponse(description))
    );
    assert_eq!(
        ServiceMessage::from(SpeechResponse { bytes: vec![1, 2] }),
        ServiceMessage::OpenAiMessage(OpenAiMessage::CreateSpeechResponse(vec![1, 2]))
    );
}
