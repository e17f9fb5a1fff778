use lindera_wasm::TokenizeError;
use lindera_wasm::analyzer::AnalyzerHandle;

#[test]
fn missing_dictionary_reports_initialization_error() {
    // No morphological dictionary is stored at this location, so the
    // analyzer instance cannot be constructed: the first and fatal error of
    // the taxonomy.
    let result = AnalyzerHandle::new("./no-dictionary-here");
    assert!(matches!(result, Err(TokenizeError::Initialization)));
}

#[test]
fn invalid_dictionary_uri_reports_initialization_error() {
    let result = AnalyzerHandle::new("not-a-scheme://nowhere");
    assert!(matches!(result, Err(TokenizeError::Initialization)));
}
