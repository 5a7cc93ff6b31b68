use desktop_shell::dialog::{
    chosen_files, chosen_path, names_json, save_filters, DialogError, DialogReply, FileFilter,
    FilePicker,
};

fn filter(name: &'static str, extensions: &[&'static str]) -> FileFilter {
    FileFilter { name, extensions: extensions.to_vec() }
}

#[test]
fn audio_picker_offers_audio_and_all_files() {
    assert_eq!(
        FilePicker::Audio.filters(),
        vec![
            filter("Audio Files", &["wav", "mp3", "flac", "ogg", "m4a"]),
            filter("All Files", &["*"]),
        ]
    );
}

#[test]
fn prediction_picker_offers_csv_and_pkl() {
    assert_eq!(
        FilePicker::Predictions.filters(),
        vec![
            filter("Prediction Files", &["csv", "pkl"]),
            filter("CSV Files", &["csv"]),
            filter("PKL Files", &["pkl"]),
            filter("All Files", &["*"]),
        ]
    );
}

#[test]
fn text_json_and_model_pickers() {
    assert_eq!(
        FilePicker::Text.filters(),
        vec![filter("Text Files", &["txt", "csv"]), filter("All Files", &["*"])]
    );
    assert_eq!(
        FilePicker::Json.filters(),
        vec![filter("JSON Files", &["json"]), filter("All Files", &["*"])]
    );
    assert_eq!(FilePicker::Models.filters(), vec![filter("All Files", &["*"])]);
}

#[test]
fn save_dialog_offers_json_for_json_names() {
    let json = vec![filter("JSON Files", &["json"]), filter("All Files", &["*"])];
    assert_eq!(save_filters("config.json"), json);
    assert_eq!(save_filters("CONFIG.JSON"), json);
    assert_eq!(save_filters("results.Json.bak"), json);
    assert_eq!(save_filters(".json"), json);
    assert_eq!(save_filters("été.jSoN"), json);
    assert_eq!(save_filters("notes.jsonl"), json);
}

#[test]
fn save_dialog_offers_csv_otherwise() {
    let csv = vec![filter("CSV Files", &["csv"]), filter("All Files", &["*"])];
    assert_eq!(save_filters("results.csv"), csv);
    assert_eq!(save_filters(""), csv);
    assert_eq!(save_filters("json"), csv);
    assert_eq!(save_filters(".jso"), csv);
    assert_eq!(save_filters("a.j.son"), csv);
}

#[test]
fn json_marker_is_found_anywhere_in_any_case() {
    assert!(names_json("a.json"));
    assert!(names_json(".JSON"));
    assert!(names_json("x.jSoN.gz"));
    assert!(!names_json("ajson"));
    assert!(!names_json(".jso"));
    assert!(!names_json(""));
    assert!(!names_json("....j"));
}

#[test]
fn dismissed_picker_stands_for_no_files() {
    assert_eq!(chosen_files(DialogReply::Dismissed), Ok(Vec::new()));
    let paths = vec!["/tmp/a.wav".to_string(), "/tmp/b.wav".to_string()];
    assert_eq!(chosen_files(DialogReply::Chosen(paths.clone())), Ok(paths));
    assert_eq!(chosen_files(DialogReply::Chosen(Vec::new())), Ok(Vec::new()));
    assert_eq!(chosen_files(DialogReply::Unreachable), Err(DialogError::Unreachable));
}

#[test]
fn dismissed_dialog_stands_for_no_path() {
    assert_eq!(chosen_path(DialogReply::Dismissed), Ok(None));
    assert_eq!(
        chosen_path(DialogReply::Chosen("/tmp/out.csv".to_string())),
        Ok(Some("/tmp/out.csv".to_string()))
    );
    assert_eq!(chosen_path(DialogReply::Unreachable), Err(DialogError::Unreachable));
}

#[test]
fn unreachable_dialog_has_a_message() {
    assert_eq!(DialogError::Unreachable.message(), "Failed to receive selection");
}
