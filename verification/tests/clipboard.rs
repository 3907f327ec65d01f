use winbridge::clipboard::{
    format_data_response_for_text, select_text_format, text_clipboard_formats, ClipboardMessage,
    FormatDataReply, HostClipboardEcho, TextClipboardState, TextDecoding, CF_TEXT, CF_UNICODETEXT,
};

#[test]
fn text_clipboard_formats_advertise_unicode_text_first() {
    let formats = text_clipboard_formats();

    assert_eq!(formats[0], CF_UNICODETEXT);
    assert_eq!(formats[1], CF_TEXT);
}

#[test]
fn backend_sends_local_unicode_text_when_remote_requests_format_data() {
    let mut state = TextClipboardState::new();
    state.set_local_text("안녕".to_string());

    let message = state.on_format_data_request(CF_UNICODETEXT);

    let ClipboardMessage::FormatData(response) = message else {
        panic!("expected format data response");
    };
    assert_eq!(response, FormatDataReply::UnicodeText("안녕".to_string()));
}

#[test]
fn backend_requests_remote_unicode_text_and_sets_host_clipboard() {
    let mut state = TextClipboardState::new();

    let request = state.on_remote_copy(&[CF_UNICODETEXT]);

    let Some(ClipboardMessage::InitiatePaste(format)) = request else {
        panic!("expected paste request");
    };
    assert_eq!(format, CF_UNICODETEXT);

    assert_eq!(state.response_decoding(false), Some(TextDecoding::Unicode));
    let host_text = state.on_remote_text("from windows".to_string());

    assert_eq!(host_text, "from windows");
    assert_eq!(
        state.on_format_data_request(CF_TEXT),
        ClipboardMessage::FormatData(FormatDataReply::Text("from windows".to_string()))
    );
}

#[test]
fn unicode_text_is_preferred_over_ansi_text() {
    assert_eq!(select_text_format(&[CF_TEXT, 7, CF_UNICODETEXT]), Some(CF_UNICODETEXT));
    assert_eq!(select_text_format(&[2, CF_TEXT]), Some(CF_TEXT));
    assert_eq!(select_text_format(&[2, 8]), None);
    assert_eq!(select_text_format(&[]), None);
}

#[test]
fn format_requests_without_text_or_for_other_formats_are_errors() {
    let state = TextClipboardState::new();
    assert_eq!(state.on_format_data_request(CF_UNICODETEXT), ClipboardMessage::FormatData(FormatDataReply::Error));
    assert_eq!(format_data_response_for_text(8, "x"), FormatDataReply::Error);
    assert_eq!(format_data_response_for_text(CF_TEXT, "x"), FormatDataReply::Text("x".to_string()));
}

#[test]
fn format_list_is_announced_only_with_host_text() {
    let mut state = TextClipboardState::new();
    assert_eq!(state.on_request_format_list(), None);
    let announce = state.on_local_text_changed("copied".to_string());
    assert_eq!(announce, ClipboardMessage::InitiateCopy(vec![CF_UNICODETEXT, CF_TEXT]));
    assert_eq!(state.on_request_format_list(), Some(ClipboardMessage::InitiateCopy(vec![CF_UNICODETEXT, CF_TEXT])));
}

#[test]
fn paste_answers_are_ignored_when_nothing_was_requested_or_on_error() {
    let mut state = TextClipboardState::new();
    assert_eq!(state.response_decoding(false), None);
    assert_eq!(state.on_remote_copy(&[5]), None);
    assert_eq!(state.response_decoding(false), None);
    state.on_remote_copy(&[CF_TEXT]);
    assert_eq!(state.response_decoding(true), None);
    assert_eq!(state.response_decoding(false), Some(TextDecoding::Ansi));
}

#[test]
fn text_from_the_remote_side_is_not_echoed_back() {
    let mut echo = HostClipboardEcho::new();
    assert!(echo.on_host_text("local"));
    echo.on_remote_set("remote");
    assert!(!echo.on_host_text("remote"));
    assert!(echo.on_host_text("remote"));
    echo.on_remote_set("a");
    assert!(echo.on_host_text("b"));
    assert!(!echo.on_host_text("a"));
}
