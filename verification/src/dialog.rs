//! What the shell's file dialogs offer and how their answers are read.

use vstd::prelude::*;

verus! {

/// A named group of file extensions that a file dialog offers.
#[derive(Clone, Debug, PartialEq, Eq)]
pub struct FileFilter {
    pub name: &'static str,
    pub extensions: Vec<&'static str>,
}

/// What Verus sees of a [`FileFilter`].
pub struct FileFilterView {
    pub name: Seq<char>,
    pub extensions: Seq<Seq<char>>,
}

impl View for FileFilter {
    type V = FileFilterView;

    open spec fn view(&self) -> FileFilterView {
        FileFilterView {
            name: self.name@,
            extensions: self.extensions@.map_values(|extension: &'static str| extension@),
        }
    }
}

/// What a list of filters offers, in order.
pub open spec fn offered(filters: Seq<FileFilter>) -> Seq<FileFilterView> {
    filters.map_values(|filter: FileFilter| filter@)
}

/// The filter that lets every file through.
pub open spec fn all_files() -> FileFilterView {
    FileFilterView { name: "All Files"@, extensions: seq!["*"@] }
}

/// The file pickers that the shell offers.
#[derive(Clone, Copy, Debug, PartialEq, Eq)]
pub enum FilePicker {
    /// Audio recordings.
    Audio,
    /// Prediction tables, as CSV or PKL.
    Predictions,
    /// Plain text lists.
    Text,
    /// JSON documents.
    Json,
    /// Model files, of whatever kind.
    Models,
}

impl FilePicker {
    /// The filters that the picker shows, in the order in which it shows
    /// them. Every picker ends with the filter that lets every file
    /// through.
    pub open spec fn filters_of(self) -> Seq<FileFilterView> {
        match self {
            FilePicker::Audio => seq![
                FileFilterView {
                    name: "Audio Files"@,
                    extensions: seq!["wav"@, "mp3"@, "flac"@, "ogg"@, "m4a"@],
                },
                all_files(),
            ],
            FilePicker::Predictions => seq![
                FileFilterView { name: "Prediction Files"@, extensions: seq!["csv"@, "pkl"@] },
                FileFilterView { name: "CSV Files"@, extensions: seq!["csv"@] },
                FileFilterView { name: "PKL Files"@, extensions: seq!["pkl"@] },
                all_files(),
            ],
            FilePicker::Text => seq![
                FileFilterView { name: "Text Files"@, extensions: seq!["txt"@, "csv"@] },
                all_files(),
            ],
            FilePicker::Json => seq![
                FileFilterView { name: "JSON Files"@, extensions: seq!["json"@] },
                all_files(),
            ],
            FilePicker::Models => seq![all_files()],
        }
    }

    /// The filters that the picker shows.
    pub fn filters(&self) -> (filters: Vec<FileFilter>)
        ensures
            offered(filters@) == self.filters_of(),
    {
        let mut filters: Vec<FileFilter> = Vec::new();
        match self {
            FilePicker::Audio => {
                filters.push(filter_of("Audio Files", vec!["wav", "mp3", "flac", "ogg", "m4a"]));
                assert(filters@[0]@.extensions =~= seq!["wav"@, "mp3"@, "flac"@, "ogg"@, "m4a"@]);
            },
            FilePicker::Predictions => {
                filters.push(filter_of("Prediction Files", vec!["csv", "pkl"]));
                filters.push(filter_of("CSV Files", vec!["csv"]));
                filters.push(filter_of("PKL Files", vec!["pkl"]));
                assert(filters@[0]@.extensions =~= seq!["csv"@, "pkl"@]);
                assert(filters@[1]@.extensions =~= seq!["csv"@]);
                assert(filters@[2]@.extensions =~= seq!["pkl"@]);
            },
            FilePicker::Text => {
                filters.push(filter_of("Text Files", vec!["txt", "csv"]));
                assert(filters@[0]@.extensions =~= seq!["txt"@, "csv"@]);
            },
            FilePicker::Json => {
                filters.push(filter_of("JSON Files", vec!["json"]));
                assert(filters@[0]@.extensions =~= seq!["json"@]);
            },
            FilePicker::Models => {},
        }
        filters.push(filter_of("All Files", vec!["*"]));
        assert(filters@.last()@.extensions =~= seq!["*"@]);
        assert(offered(filters@) =~= self.filters_of());
        filters
    }
}

fn filter_of(name: &'static str, extensions: Vec<&'static str>) -> (filter: FileFilter)
    ensures
        filter@.name == name@,
        filter@.extensions == extensions@.map_values(|extension: &'static str| extension@),
{
    FileFilter { name, extensions }
}

/// Whether the five characters of `name` from position `i` on spell
/// `.json`, in whatever mix of upper and lower case.
pub open spec fn json_marker_at(name: Seq<char>, i: int) -> bool {
    &&& 0 <= i
    &&& i + 5 <= name.len()
    &&& name[i] == '.'
    &&& (name[i + 1] == 'j' || name[i + 1] == 'J')
    &&& (name[i + 2] == 's' || name[i + 2] == 'S')
    &&& (name[i + 3] == 'o' || name[i + 3] == 'O')
    &&& (name[i + 4] == 'n' || name[i + 4] == 'N')
}

/// Whether `name` holds `.json` somewhere, in whatever case.
pub open spec fn mentions_json(name: Seq<char>) -> bool {
    exists|i: int| json_marker_at(name, i)
}

/// The filters of the dialog that saves a file under the suggested name
/// `name`: JSON documents if the name mentions `.json`, CSV tables if it
/// does not, and in either case the filter that lets every file through.
pub open spec fn save_filters_of(name: Seq<char>) -> Seq<FileFilterView> {
    if mentions_json(name) {
        seq![FileFilterView { name: "JSON Files"@, extensions: seq!["json"@] }, all_files()]
    } else {
        seq![FileFilterView { name: "CSV Files"@, extensions: seq!["csv"@] }, all_files()]
    }
}

/// Whether `name` holds `.json` somewhere, in whatever case.
pub fn names_json(name: &str) -> (found: bool)
    ensures
        found == mentions_json(name@),
{
    let len = name.unicode_len();
    if len < 5 {
        return false;
    }
    let mut i: usize = 0;
    while i <= len - 5
        invariant
            len == name@.len(),
            5 <= len,
            forall|j: int| 0 <= j < i ==> !json_marker_at(name@, j),
        decreases len - i,
    {
        let c0 = name.get_char(i);
        let c1 = name.get_char(i + 1);
        let c2 = name.get_char(i + 2);
        let c3 = name.get_char(i + 3);
        let c4 = name.get_char(i + 4);
        if c0 == '.' && (c1 == 'j' || c1 == 'J') && (c2 == 's' || c2 == 'S') && (c3 == 'o' || c3
            == 'O') && (c4 == 'n' || c4 == 'N') {
            assert(json_marker_at(name@, i as int));
            return true;
        }
        i = i + 1;
    }
    false
}

/// The filters of the dialog that saves a file under the suggested name
/// `default_name`.
pub fn save_filters(default_name: &str) -> (filters: Vec<FileFilter>)
    ensures
        offered(filters@) == save_filters_of(default_name@),
{
    let mut filters: Vec<FileFilter> = Vec::new();
    if names_json(default_name) {
        filters.push(filter_of("JSON Files", vec!["json"]));
        assert(filters@[0]@.extensions =~= seq!["json"@]);
    } else {
        filters.push(filter_of("CSV Files", vec!["csv"]));
        assert(filters@[0]@.extensions =~= seq!["csv"@]);
    }
    filters.push(filter_of("All Files", vec!["*"]));
    assert(filters@[1]@.extensions =~= seq!["*"@]);
    assert(offered(filters@) =~= save_filters_of(default_name@));
    filters
}

/// What came back from a dialog.
#[derive(Clone, Debug, PartialEq, Eq)]
pub enum DialogReply<T> {
    /// The user chose something.
    Chosen(T),
    /// The user closed the dialog without choosing.
    Dismissed,
    /// The dialog could not be shown, or its answer never arrived.
    Unreachable,
}

/// Why a dialog gave no answer.
#[derive(Clone, Copy, Debug, PartialEq, Eq)]
pub enum DialogError {
    /// The dialog could not be shown, or its answer never arrived.
    Unreachable,
}

impl DialogError {
    /// The error in words.
    pub fn message(&self) -> (text: &'static str)
        ensures
            text@ == "Failed to receive selection"@,
    {
        "Failed to receive selection"
    }
}

/// The files that a file picker's reply stands for. A dismissed dialog is
/// no error: it stands for no files.
pub fn chosen_files(reply: DialogReply<Vec<String>>) -> (result: Result<Vec<String>, DialogError>)
    ensures
        reply is Unreachable <==> result is Err,
        reply matches DialogReply::Chosen(paths) ==> result == Ok::<Vec<String>, DialogError>(paths),
        reply is Dismissed ==> (result matches Ok(paths) && paths@.len() == 0),
{
    match reply {
        DialogReply::Chosen(paths) => Ok(paths),
        DialogReply::Dismissed => Ok(Vec::new()),
        DialogReply::Unreachable => Err(DialogError::Unreachable),
    }
}

/// The path that the reply of a folder picker or of a save dialog stands
/// for. A dismissed dialog is no error: it stands for no path.
pub fn chosen_path(reply: DialogReply<String>) -> (result: Result<Option<String>, DialogError>)
    ensures
        result == match reply {
            DialogReply::Chosen(path) => Ok::<Option<String>, DialogError>(Some(path)),
            DialogReply::Dismissed => Ok(None),
            DialogReply::Unreachable => Err(DialogError::Unreachable),
        },
{
    match reply {
        DialogReply::Chosen(path) => Ok(Some(path)),
        DialogReply::Dismissed => Ok(None),
        DialogReply::Unreachable => Err(DialogError::Unreachable),
    }
}

} // verus!
