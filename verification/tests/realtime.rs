use overlay_core::realtime::{
    code_label, display_texts, effective_audio_source, escape_js, glow_color, language_label,
    language_options_html, model_switch_name, model_switch_script, overlay_request,
    panel_controls, realtime_placement, resized_extent, target_language, title_content,
    toggle_panel, transcript_texts, tts_allowed, tts_speed_script, tts_step, update_text_script,
    visibility_script, BlockLanguage, OverlayRequest, Panel, ToggleOutcome, Visibility,
    AUDIO_MIC_END, AUDIO_OPEN, VOLUME_BAR,
};

#[test]
fn committed_and_new_text_are_separated_by_one_space() {
    assert_eq!(display_texts("Hello.  ", "  world"), ("Hello.".to_string(), " world".to_string()));
    assert_eq!(display_texts("", "  world"), ("".to_string(), "world".to_string()));
    assert_eq!(display_texts("done ", "   "), ("done".to_string(), "".to_string()));
}

#[test]
fn transcript_is_split_at_the_committed_position() {
    assert_eq!(transcript_texts("One. Two", 4), ("One.".to_string(), " Two".to_string()));
    assert_eq!(transcript_texts("short", 99), ("short".to_string(), "".to_string()));
    assert_eq!(transcript_texts("héllo wörld", 6), ("héllo".to_string(), " wörld".to_string()));
}

#[test]
fn transcript_is_split_at_a_byte_offset() {
    assert_eq!(transcript_texts("éé", 2), ("é".to_string(), " é".to_string()));
    assert_eq!(transcript_texts("日本 語", 7), ("日本".to_string(), " 語".to_string()));
    assert_eq!(transcript_texts("éé", 4), ("éé".to_string(), "".to_string()));
}

#[test]
fn text_is_escaped_for_single_quoted_scripts() {
    assert_eq!(escape_js("it's a\\b\r\nc"), "it\\'s a\\\\b\\nc");
    assert_eq!(
        update_text_script("a'b", "c"),
        "window.updateText('a\\'b', 'c');"
    );
}

#[test]
fn scripts_sent_to_the_pages() {
    assert_eq!(visibility_script(true, false), "if(window.setVisibility) window.setVisibility(true, false);");
    assert_eq!(model_switch_name(1), "google-gemma");
    assert_eq!(model_switch_name(2), "google-gtx");
    assert_eq!(model_switch_name(0), "groq-llama");
    assert_eq!(model_switch_name(9), "groq-llama");
    assert_eq!(model_switch_script(1), "if(window.switchModel) window.switchModel('google-gemma');");
    assert_eq!(tts_speed_script(150), "if(window.updateTtsSpeed) window.updateTtsSpeed(150);");
}

#[test]
fn messages_posted_by_the_pages() {
    assert!(matches!(overlay_request("startDrag"), OverlayRequest::StartDrag));
    assert!(matches!(overlay_request("close"), OverlayRequest::Close));
    assert!(matches!(overlay_request("saveResize"), OverlayRequest::SaveResize));
    assert!(matches!(overlay_request("fontSize:18"), OverlayRequest::FontSize(18)));
    assert!(matches!(overlay_request("fontSize:big"), OverlayRequest::Ignored));
    match overlay_request("audioSource:device") {
        OverlayRequest::AudioSource(s) => assert_eq!(s, "device"),
        _ => panic!("audio source expected"),
    }
    match overlay_request("language:Japanese") {
        OverlayRequest::Language(s) => assert_eq!(s, "Japanese"),
        _ => panic!("language expected"),
    }
    match overlay_request("translationModel:google-gtx") {
        OverlayRequest::TranslationModel(s) => assert_eq!(s, "google-gtx"),
        _ => panic!("model expected"),
    }
    assert!(matches!(overlay_request("resize:-10,25"), OverlayRequest::Resize(-10, 25)));
    assert!(matches!(overlay_request("resize:10"), OverlayRequest::Resize(..)) == false);
    assert!(matches!(overlay_request("resize:1,2,3"), OverlayRequest::Ignored));
    assert!(matches!(overlay_request("toggleMic:1"), OverlayRequest::ToggleMic(true)));
    assert!(matches!(overlay_request("toggleMic:0"), OverlayRequest::ToggleMic(false)));
    assert!(matches!(overlay_request("toggleTrans:1"), OverlayRequest::ToggleTrans(true)));
    assert!(matches!(overlay_request("hello"), OverlayRequest::Ignored));
}

#[test]
fn resizing_keeps_a_minimum_size() {
    assert_eq!(resized_extent(500, 180, 30, -20), (530, 160));
    assert_eq!(resized_extent(500, 180, -400, -150), (200, 100));
}

#[test]
fn hiding_both_overlays_stops_everything() {
    let both = Visibility { mic: true, trans: true };
    let (v, o) = toggle_panel(both, Panel::Transcription, false);
    assert_eq!((v, o), (Visibility { mic: false, trans: true }, ToggleOutcome::Nothing));
    let (v2, o2) = toggle_panel(v, Panel::Translation, false);
    assert_eq!((v2, o2), (Visibility { mic: false, trans: false }, ToggleOutcome::StopAll));
    let (v3, o3) = toggle_panel(v, Panel::Transcription, true);
    assert_eq!((v3, o3), (both, ToggleOutcome::Refresh));
}

#[test]
fn the_starting_target_language() {
    let block = BlockLanguage {
        selected_language: String::new(),
        language_var: None,
        language1_var: Some("German".to_string()),
    };
    assert_eq!(target_language("French", Some(&block)), "French");
    assert_eq!(target_language("", Some(&block)), "German");
    let selected = BlockLanguage {
        selected_language: "Korean".to_string(),
        language_var: Some("Thai".to_string()),
        language1_var: None,
    };
    assert_eq!(target_language("", Some(&selected)), "Korean");
    let bare = BlockLanguage { selected_language: String::new(), language_var: None, language1_var: None };
    assert_eq!(target_language("", Some(&bare)), "Vietnamese");
    assert_eq!(target_language("", None), "Vietnamese");
    assert_eq!(effective_audio_source("device", "mic"), "device");
    assert_eq!(effective_audio_source("", "mic"), "mic");
}

#[test]
fn overlays_open_centred_side_by_side() {
    assert_eq!(realtime_placement(1920, 1080, 500, 180, 500, true), (450, 450, Some(970)));
    assert_eq!(realtime_placement(1920, 1080, 500, 180, 500, false), (710, 450, None));
}

#[test]
fn reading_aloud_is_allowed_with_the_microphone_or_one_application() {
    assert!(tts_allowed("", false));
    assert!(tts_allowed("mic", false));
    assert!(!tts_allowed("device", false));
    assert!(tts_allowed("device", true));
}

#[test]
fn new_committed_translation_is_read_once() {
    let first = tts_step(true, true, "Hello there.", 0);
    assert_eq!(first.spoken, 12);
    assert_eq!(first.speak, Some("Hello there.".to_string()));
    let again = tts_step(true, true, "Hello there.", first.spoken);
    assert_eq!(again.spoken, 12);
    assert_eq!(again.speak, None);
    let more = tts_step(true, true, "Hello there. How are you?", 12);
    assert_eq!(more.spoken, 25);
    assert_eq!(more.speak, Some(" How are you?".to_string()));
    let off = tts_step(false, true, "Hello there.", 0);
    assert_eq!((off.spoken, off.speak), (0, None));
    let blocked = tts_step(true, false, "Hello there.", 3);
    assert_eq!((blocked.spoken, blocked.speak), (3, None));
}

#[test]
fn starting_late_skips_to_the_last_sentence() {
    let text = "This is the first sentence of a long text. And here is the second one.";
    let r = tts_step(true, true, text, 0);
    assert_eq!(r.spoken, text.chars().count());
    assert_eq!(r.speak, Some(" And here is the second one.".to_string()));
    let blank_tail = tts_step(true, true, "abc. ", 4);
    assert_eq!((blank_tail.spoken, blank_tail.speak), (5, None));
}

#[test]
fn read_positions_count_bytes() {
    let text = "Ça va très bien aujourd'hui, merci. Et toi, ça va?";
    assert_eq!(text.chars().count(), 50);
    let r = tts_step(true, true, text, 0);
    assert_eq!(r.spoken, text.len());
    assert_eq!(r.speak, Some(" Et toi, ça va?".to_string()));
    let later = tts_step(true, true, "Écoute bien ceci. Voilà!", 18);
    assert_eq!(later.spoken, 26);
    assert_eq!(later.speak, Some(" Voilà!".to_string()));
}

#[test]
fn language_labels_use_iso_codes() {
    assert_eq!(language_label("Spanish"), "ES");
    assert_eq!(language_label("English"), "EN");
    assert_eq!(language_label("Klingonese"), "KL");
    assert_eq!(language_label("x"), "X");
    assert_eq!(code_label("Whatever", Some("de")), "DE");
    assert_eq!(code_label("ab", None), "AB");
}

#[test]
fn language_list_marks_the_current_language() {
    let langs = vec!["English".to_string(), "Vietnamese".to_string()];
    assert_eq!(
        language_options_html(&langs, "Vietnamese"),
        "<option value=\"English\" data-code=\"EN\" >English</option>\n<option value=\"Vietnamese\" data-code=\"VI\" selected>Vietnamese</option>"
    );
    assert_eq!(language_options_html(&Vec::new(), "x"), "");
}

#[test]
fn header_controls_of_each_overlay() {
    let mic = panel_controls(false, "mic", "", &Vec::new(), "");
    assert!(mic.starts_with(AUDIO_OPEN));
    assert!(mic.contains(&format!("audio-icon active{}", AUDIO_MIC_END)));
    let device = panel_controls(false, "device", "", &Vec::new(), "");
    assert!(device.contains("audio-icon active\" data-value=\"device\""));
    let langs = vec!["English".to_string()];
    let trans = panel_controls(true, "mic", "groq-llama", &langs, "English");
    assert!(trans.contains("model-icon active\" data-value=\"groq-llama\""));
    assert!(trans.contains("model-icon \" data-value=\"google-gemma\""));
    assert!(trans.contains("<option value=\"English\" data-code=\"EN\" selected>English</option>"));
}

#[test]
fn title_and_accent_colour() {
    assert_eq!(title_content(true, "Translation"), "Translation");
    let bars = title_content(false, "ignored");
    assert_eq!(bars, format!("<div class=\"volume-bars\" id=\"volume-bars\">{}</div>", VOLUME_BAR.repeat(30)));
    assert_eq!(glow_color(true), "#ff9633");
    assert_eq!(glow_color(false), "#00c8ff");
}

#[test]
fn quoted_text_stays_inside_its_string() {
    let q = escape_js("line one\r\nit's 'quoted'\\");
    assert!(!q.contains('\n') && !q.contains('\r'));
    let chars: Vec<char> = q.chars().collect();
    for (i, c) in chars.iter().enumerate() {
        if *c == '\'' {
            assert!(i > 0 && chars[i - 1] == '\\');
        }
    }
}
