use lindera_wasm::TokenizeError;
use lindera_wasm::format_tokens;
use lindera_wasm::token::AnalyzerToken;
use lindera_wasm::token::KuromojiJSFormatToken;
use lindera_wasm::token::detail_to_kuromoji_js_format;

fn known(text: &str, detail: [&str; 9]) -> AnalyzerToken {
    AnalyzerToken {
        text: text.to_string(),
        detail: detail.iter().map(|d| d.to_string()).collect(),
    }
}

fn unknown(text: &str) -> AnalyzerToken {
    AnalyzerToken { text: text.to_string(), detail: vec!["UNK".to_string()] }
}

fn linguistic_fields(out: &KuromojiJSFormatToken) -> [&str; 9] {
    [
        out.pos.as_str(),
        out.pos_detail_1.as_str(),
        out.pos_detail_2.as_str(),
        out.pos_detail_3.as_str(),
        out.conjugated_type.as_str(),
        out.conjugated_form.as_str(),
        out.basic_form.as_str(),
        out.reading.as_str(),
        out.pronunciation.as_str(),
    ]
}

#[test]
fn known_token_fields_copied_verbatim() {
    let detail = [
        "名詞",
        "サ変接続",
        "*",
        "*",
        "*",
        "*",
        "限定",
        "ゲンテイ",
        "ゲンテイ",
    ];
    let token = known("限定", detail);
    let out = detail_to_kuromoji_js_format(4, &token);
    assert_eq!(out.word_id, None);
    assert_eq!(out.word_type, "KNOWN");
    assert_eq!(out.word_position, 4);
    assert_eq!(out.surface_form, "限定");
    assert_eq!(linguistic_fields(&out), detail);
}

#[test]
fn unknown_token_gets_sentinel_fields() {
    let token = unknown("トートバッグ");
    let out = detail_to_kuromoji_js_format(2, &token);
    assert_eq!(out.word_id, None);
    assert_eq!(out.word_type, "UNKNOWN");
    assert_eq!(out.word_position, 2);
    assert_eq!(out.surface_form, "トートバッグ");
    assert_eq!(out.pos, "UNK");
    assert_eq!(
        linguistic_fields(&out)[1..],
        ["＊", "＊", "＊", "＊", "＊", "＊", "＊", "＊"]
    );
}

#[test]
fn unknown_iff_pos_is_unk() {
    let tokens = vec![
        known("限定", ["名詞", "サ変接続", "*", "*", "*", "*", "限定", "ゲンテイ", "ゲンテイ"]),
        unknown("トートバッグ"),
    ];
    let out = format_tokens(&tokens).unwrap();
    for record in &out {
        assert_eq!(record.word_type == "UNKNOWN", record.pos == "UNK");
    }
    assert_eq!(out[0].word_type, "KNOWN");
    assert_eq!(out[1].word_type, "UNKNOWN");
}

#[test]
fn three_token_scenario() {
    // The analyzer's segmentation of "関西国際空港限定トートバッグ" over the
    // IPADIC dictionary: two dictionary words and one unknown katakana run.
    let tokens = vec![
        known(
            "関西国際空港",
            [
                "名詞",
                "固有名詞",
                "組織",
                "*",
                "*",
                "*",
                "関西国際空港",
                "カンサイコクサイクウコウ",
                "カンサイコクサイクーコー",
            ],
        ),
        known("限定", ["名詞", "サ変接続", "*", "*", "*", "*", "限定", "ゲンテイ", "ゲンテイ"]),
        unknown("トートバッグ"),
    ];
    let out = format_tokens(&tokens).unwrap();
    assert_eq!(out.len(), 3);
    assert_eq!(out[0].surface_form, "関西国際空港");
    assert_eq!(out[1].surface_form, "限定");
    assert_eq!(out[2].surface_form, "トートバッグ");
    assert_eq!(out[0].word_position, 0);
    assert_eq!(out[1].word_position, 1);
    assert_eq!(out[2].word_position, 2);
}

#[test]
fn word_positions_are_ordinal() {
    let mut tokens = Vec::new();
    for i in 0..25 {
        if i % 3 == 0 {
            tokens.push(unknown("ｘ"));
        } else {
            tokens.push(known("の", ["助詞", "連体化", "*", "*", "*", "*", "の", "ノ", "ノ"]));
        }
    }
    let out = format_tokens(&tokens).unwrap();
    assert_eq!(out.len(), 25);
    for (i, record) in out.iter().enumerate() {
        assert_eq!(record.word_position as usize, i);
    }
}

#[test]
fn surface_concat_reconstructs_input() {
    let input = "関西国際空港限定トートバッグ";
    let tokens = vec![
        known(
            "関西国際空港",
            [
                "名詞",
                "固有名詞",
                "組織",
                "*",
                "*",
                "*",
                "関西国際空港",
                "カンサイコクサイクウコウ",
                "カンサイコクサイクーコー",
            ],
        ),
        known("限定", ["名詞", "サ変接続", "*", "*", "*", "*", "限定", "ゲンテイ", "ゲンテイ"]),
        unknown("トートバッグ"),
    ];
    let out = format_tokens(&tokens).unwrap();
    let rebuilt: String = out.iter().map(|r| r.surface_form.as_str()).collect();
    assert_eq!(rebuilt, input);
}

#[test]
fn empty_token_sequence_gives_empty_output() {
    let tokens: Vec<AnalyzerToken> = Vec::new();
    let out = format_tokens(&tokens).unwrap();
    assert!(out.is_empty());
}

#[test]
fn malformed_known_detail_fails_whole_call() {
    let tokens = vec![
        known("限定", ["名詞", "サ変接続", "*", "*", "*", "*", "限定", "ゲンテイ", "ゲンテイ"]),
        AnalyzerToken {
            text: "空港".to_string(),
            detail: vec!["名詞".to_string(), "一般".to_string(), "*".to_string()],
        },
    ];
    assert_eq!(format_tokens(&tokens), Err(TokenizeError::SchemaConsistency));
}

#[test]
fn empty_detail_list_fails_whole_call() {
    let tokens = vec![AnalyzerToken { text: "空港".to_string(), detail: Vec::new() }];
    assert_eq!(format_tokens(&tokens), Err(TokenizeError::SchemaConsistency));
}

#[test]
fn repeated_mapping_is_identical() {
    let tokens = vec![
        known("限定", ["名詞", "サ変接続", "*", "*", "*", "*", "限定", "ゲンテイ", "ゲンテイ"]),
        unknown("トートバッグ"),
        unknown("ｘ"),
    ];
    let first = format_tokens(&tokens).unwrap();
    let second = format_tokens(&tokens).unwrap();
    assert_eq!(first, second);
}
