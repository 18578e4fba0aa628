use crate::value::{JsonValue, JsonView};
use vstd::prelude::*;
use vstd::string::*;

verus! {

pub const LOAD_PATH: &'static str = "assets/";

pub const JSON_FILE: &'static str = ".json";

pub const JSON_ASSETS_DIR: &'static str = "json/";

pub const FONTS_DIR: &'static str = "fonts/";

pub const NORMAL_FONT: &'static str = "astron_boy";

/// Why a payload could not be decoded into the type that was asked for.
#[derive(Debug, Clone, Copy, PartialEq, Eq, Structural)]
pub enum DecodeError {
    /// The payload, or one of its parts, is of the wrong JSON kind.
    InvalidType,
    /// A list stands for a record and has too few or too many elements.
    InvalidLength,
    /// An object lacks a field that the record needs.
    MissingField,
    /// A number is an integer outside the range of the target type.
    OutOfRange,
    /// The key of an object entry is not the plain decimal text of a number.
    InvalidKey,
}

/// One of the independent loads that are joined at start-up, in the order in
/// which their outcomes are examined.
#[derive(Debug, Clone, Copy, PartialEq, Eq, Structural)]
pub enum Subsystem {
    FontCatalog,
    ImageCatalog,
    AudioController,
    SceneStack,
}

/// Every failure the library reports. None of them aborts the process.
#[derive(Debug, PartialEq, Eq)]
#[allow(inconsistent_fields)]
pub enum TestGlobalError {
    /// An envelope's tag is not the one its consumer expects.
    LoadIDMatchError { expected_id: String, actual_id: String },
    /// A registry has no constructor for an envelope's tag.
    UnknownTypeId { actual_id: String, known_ids: Vec<String> },
    /// Loading the unit read from `file_path` failed for the reason in `source`.
    JSONLoadError { file_path: String, source: Box<TestGlobalError> },
    /// A payload with a matching tag could not be decoded into `into_type`.
    ConvertJSONError { value: JsonValue, into_type: String, source: DecodeError },
    /// The shared world could not be locked for writing.
    ECSWriteError { source_string: String },
    /// The shared world could not be locked for reading.
    ECSReadError { source_string: String },
    /// One of the loads joined at start-up failed.
    SubsystemLoadError { subsystem: Subsystem, source: Box<TestGlobalError> },
    /// A collaborator outside the library failed; `source_string` is its report.
    ResourceError { source_string: String },
    /// The entity files handed to a scene are not the files that the scene
    /// names, in the order in which it names them.
    EntityPathMismatch { expected_paths: Vec<String>, actual_paths: Vec<String> },
}

/// The mathematical model of a [`TestGlobalError`].
#[allow(inconsistent_fields)]
pub enum ErrorView {
    LoadIDMatchError { expected_id: Seq<char>, actual_id: Seq<char> },
    UnknownTypeId { actual_id: Seq<char>, known_ids: Seq<Seq<char>> },
    JSONLoadError { file_path: Seq<char>, source: Box<ErrorView> },
    ConvertJSONError { value: JsonView, into_type: Seq<char>, source: DecodeError },
    ECSWriteError { source_string: Seq<char> },
    ECSReadError { source_string: Seq<char> },
    SubsystemLoadError { subsystem: Subsystem, source: Box<ErrorView> },
    ResourceError { source_string: Seq<char> },
    EntityPathMismatch { expected_paths: Seq<Seq<char>>, actual_paths: Seq<Seq<char>> },
}

/// The views of a list of strings, in order.
pub open spec fn texts(items: Seq<String>) -> Seq<Seq<char>> {
    Seq::new(items.len(), |i: int| items[i]@)
}

impl TestGlobalError {
    /// The error as a mathematical value.
    pub open spec fn model(&self) -> ErrorView
        decreases self,
    {
        match self {
            TestGlobalError::LoadIDMatchError { expected_id, actual_id } => {
                ErrorView::LoadIDMatchError { expected_id: expected_id@, actual_id: actual_id@ }
            },
            TestGlobalError::UnknownTypeId { actual_id, known_ids } => {
                ErrorView::UnknownTypeId { actual_id: actual_id@, known_ids: texts(known_ids@) }
            },
            TestGlobalError::JSONLoadError { file_path, source } => {
                ErrorView::JSONLoadError { file_path: file_path@, source: Box::new(source.model()) }
            },
            TestGlobalError::ConvertJSONError { value, into_type, source } => {
                ErrorView::ConvertJSONError {
                    value: value@,
                    into_type: into_type@,
                    source: *source,
                }
            },
            TestGlobalError::ECSWriteError { source_string } => {
                ErrorView::ECSWriteError { source_string: source_string@ }
            },
            TestGlobalError::ECSReadError { source_string } => {
                ErrorView::ECSReadError { source_string: source_string@ }
            },
            TestGlobalError::SubsystemLoadError { subsystem, source } => {
                ErrorView::SubsystemLoadError {
                    subsystem: *subsystem,
                    source: Box::new(source.model()),
                }
            },
            TestGlobalError::ResourceError { source_string } => {
                ErrorView::ResourceError { source_string: source_string@ }
            },
            TestGlobalError::EntityPathMismatch { expected_paths, actual_paths } => {
                ErrorView::EntityPathMismatch {
                    expected_paths: texts(expected_paths@),
                    actual_paths: texts(actual_paths@),
                }
            },
        }
    }
}

impl View for TestGlobalError {
    type V = ErrorView;

    open spec fn view(&self) -> ErrorView {
        self.model()
    }
}

/// The text that the formatter `{:?}` writes for a string: the string between
/// double quotes, with the characters that need it escaped.
pub uninterp spec fn debug_text(text: Seq<char>) -> Seq<char>;

/// `format!("{:?}", text)` of std: the result is the `Debug` rendering of the
/// string slice, which depends on its characters alone.
#[verifier::external_body]
pub(crate) fn quoted(text: &str) -> (out: String)
    ensures
        out@ == debug_text(text@),
{
    format!("{:?}", text)
}

/// The texts of a list, with a comma and a space between them.
pub open spec fn joined(items: Seq<Seq<char>>) -> Seq<char>
    decreases items.len(),
{
    if items.len() == 0 {
        Seq::empty()
    } else if items.len() == 1 {
        items[0]
    } else {
        joined(items.drop_last()) + ", "@ + items.last()
    }
}

/// The texts of a list, each between quotes.
pub open spec fn debug_texts(items: Seq<Seq<char>>) -> Seq<Seq<char>> {
    Seq::new(items.len(), |i: int| debug_text(items[i]))
}

/// What a tag mismatch says, given the two ids between quotes.
pub open spec fn mismatch_text(quoted_actual: Seq<char>, quoted_expected: Seq<char>) -> Seq<char> {
    "load_type_id: "@ + quoted_actual + " did not match expected ID: "@ + quoted_expected
}

/// What an unknown id says, given the id and the known ids between quotes.
pub open spec fn unknown_id_text(quoted_actual: Seq<char>, quoted_known: Seq<Seq<char>>) -> Seq<
    char,
> {
    "load_type_id: "@ + quoted_actual + " is not one of the known IDs: "@ + joined(quoted_known)
}

/// What a mismatch of entity files says, given the paths between quotes.
pub open spec fn path_mismatch_text(
    quoted_actual: Seq<Seq<char>>,
    quoted_expected: Seq<Seq<char>>,
) -> Seq<char> {
    "entity files: "@ + joined(quoted_actual) + " are not the files that the scene names: "@
        + joined(quoted_expected)
}

/// Joins texts with a comma and a space between them.
pub fn join_texts(items: &Vec<String>) -> (text: String)
    ensures
        text@ == joined(texts(items@)),
{
    let mut text = String::new();
    let mut i: usize = 0;
    assert(texts(items@).take(0) =~= Seq::<Seq<char>>::empty());
    while i < items.len()
        invariant
            i <= items.len(),
            text@ == joined(texts(items@).take(i as int)),
        decreases items.len() - i,
    {
        let ghost all = texts(items@);
        assert(all.take(i + 1).drop_last() =~= all.take(i as int));
        assert(all.take(i + 1).last() == items@[i as int]@);
        if i > 0 {
            text.append(", ");
        }
        text.append(items[i].as_str());
        assert(text@ =~= joined(all.take(i + 1))) by {
            if i == 0 {
                assert(all.take(1)[0] == items@[0]@);
            }
        }
        i += 1;
    }
    assert(texts(items@).take(items@.len() as int) =~= texts(items@));
    text
}

/// Puts each text of a list between quotes.
pub fn quote_all(items: &Vec<String>) -> (quoted_items: Vec<String>)
    ensures
        texts(quoted_items@) == debug_texts(texts(items@)),
{
    let mut quoted_items: Vec<String> = Vec::new();
    let mut i: usize = 0;
    while i < items.len()
        invariant
            i <= items.len(),
            quoted_items@.len() == i,
            forall|j: int| 0 <= j < i ==> (#[trigger] quoted_items@[j])@ == debug_text(items@[j]@),
        decreases items.len() - i,
    {
        quoted_items.push(quoted(items[i].as_str()));
        i += 1;
    }
    assert(texts(quoted_items@) =~= debug_texts(texts(items@)));
    quoted_items
}

/// Says a tag mismatch, given the two ids between quotes.
pub fn mismatch_message(quoted_actual: &str, quoted_expected: &str) -> (text: String)
    ensures
        text@ == mismatch_text(quoted_actual@, quoted_expected@),
{
    let mut text = String::from_str("load_type_id: ");
    text.append(quoted_actual);
    text.append(" did not match expected ID: ");
    text.append(quoted_expected);
    text
}

/// Says an unknown id, given the id and the known ids between quotes.
pub fn unknown_id_message(quoted_actual: &str, quoted_known: &Vec<String>) -> (text: String)
    ensures
        text@ == unknown_id_text(quoted_actual@, texts(quoted_known@)),
{
    let mut text = String::from_str("load_type_id: ");
    text.append(quoted_actual);
    text.append(" is not one of the known IDs: ");
    text.append(join_texts(quoted_known).as_str());
    text
}

/// Says a mismatch of entity files, given the paths between quotes.
pub fn path_mismatch_message(quoted_actual: &Vec<String>, quoted_expected: &Vec<String>) -> (text:
    String)
    ensures
        text@ == path_mismatch_text(texts(quoted_actual@), texts(quoted_expected@)),
{
    let mut text = String::from_str("entity files: ");
    text.append(join_texts(quoted_actual).as_str());
    text.append(" are not the files that the scene names: ");
    text.append(join_texts(quoted_expected).as_str());
    text
}

impl DecodeError {
    /// The failure in words.
    pub open spec fn text(self) -> Seq<char> {
        match self {
            DecodeError::InvalidType => "invalid type"@,
            DecodeError::InvalidLength => "invalid length"@,
            DecodeError::MissingField => "missing field"@,
            DecodeError::OutOfRange => "number out of range"@,
            DecodeError::InvalidKey => "invalid key"@,
        }
    }

    /// The failure in words.
    pub fn message(&self) -> (text: String)
        ensures
            text@ == self.text(),
    {
        match self {
            DecodeError::InvalidType => String::from_str("invalid type"),
            DecodeError::InvalidLength => String::from_str("invalid length"),
            DecodeError::MissingField => String::from_str("missing field"),
            DecodeError::OutOfRange => String::from_str("number out of range"),
            DecodeError::InvalidKey => String::from_str("invalid key"),
        }
    }
}

impl Subsystem {
    /// The name of the subsystem in words.
    pub open spec fn name(self) -> Seq<char> {
        match self {
            Subsystem::FontCatalog => "font catalog"@,
            Subsystem::ImageCatalog => "image catalog"@,
            Subsystem::AudioController => "audio controller"@,
            Subsystem::SceneStack => "scene stack"@,
        }
    }

    /// The name of the subsystem in words.
    pub fn label(&self) -> (text: &'static str)
        ensures
            text@ == self.name(),
    {
        match self {
            Subsystem::FontCatalog => "font catalog",
            Subsystem::ImageCatalog => "image catalog",
            Subsystem::AudioController => "audio controller",
            Subsystem::SceneStack => "scene stack",
        }
    }
}

impl ErrorView {
    /// What the error says of itself, without what caused it.
    pub open spec fn message(self) -> Seq<char> {
        match self {
            ErrorView::LoadIDMatchError { expected_id, actual_id } => mismatch_text(
                debug_text(actual_id),
                debug_text(expected_id),
            ),
            ErrorView::UnknownTypeId { actual_id, known_ids } => unknown_id_text(
                debug_text(actual_id),
                debug_texts(known_ids),
            ),
            ErrorView::JSONLoadError { file_path, source } => "Failed to load json from: "@
                + file_path,
            ErrorView::ConvertJSONError { value, into_type, source } => "Error converting JSON value into "@
                + into_type + ": "@ + source.text(),
            ErrorView::ECSWriteError { source_string } => "Error getting write lock for ECS"@,
            ErrorView::ECSReadError { source_string } => "Error getting read lock for ECS"@,
            ErrorView::SubsystemLoadError { subsystem, source } => "Failed to load the "@
                + subsystem.name(),
            ErrorView::ResourceError { source_string } => source_string,
            ErrorView::EntityPathMismatch { expected_paths, actual_paths } => path_mismatch_text(
                debug_texts(actual_paths),
                debug_texts(expected_paths),
            ),
        }
    }

    /// What the error says of itself and of every error that led to it, the
    /// outermost first, with a colon and a space between them.
    pub open spec fn report(self) -> Seq<char>
        decreases self,
    {
        match self {
            ErrorView::JSONLoadError { file_path, source } => self.message() + ": "@
                + source.report(),
            ErrorView::SubsystemLoadError { subsystem, source } => self.message() + ": "@
                + source.report(),
            _ => self.message(),
        }
    }
}

impl TestGlobalError {
    /// What the error says of itself, without what caused it.
    pub fn message(&self) -> (text: String)
        ensures
            text@ == self@.message(),
    {
        match self {
            TestGlobalError::LoadIDMatchError { expected_id, actual_id } => {
                let quoted_actual = quoted(actual_id.as_str());
                let quoted_expected = quoted(expected_id.as_str());
                mismatch_message(quoted_actual.as_str(), quoted_expected.as_str())
            },
            TestGlobalError::UnknownTypeId { actual_id, known_ids } => {
                let quoted_actual = quoted(actual_id.as_str());
                let quoted_known = quote_all(known_ids);
                unknown_id_message(quoted_actual.as_str(), &quoted_known)
            },
            TestGlobalError::JSONLoadError { file_path, source } => {
                let mut text = String::from_str("Failed to load json from: ");
                text.append(file_path.as_str());
                text
            },
            TestGlobalError::ConvertJSONError { value, into_type, source } => {
                let mut text = String::from_str("Error converting JSON value into ");
                text.append(into_type.as_str());
                text.append(": ");
                text.append(source.message().as_str());
                text
            },
            TestGlobalError::ECSWriteError { source_string } => String::from_str(
                "Error getting write lock for ECS",
            ),
            TestGlobalError::ECSReadError { source_string } => String::from_str(
                "Error getting read lock for ECS",
            ),
            TestGlobalError::SubsystemLoadError { subsystem, source } => {
                let mut text = String::from_str("Failed to load the ");
                text.append(subsystem.label());
                text
            },
            TestGlobalError::ResourceError { source_string } => source_string.clone(),
            TestGlobalError::EntityPathMismatch { expected_paths, actual_paths } => {
                let quoted_actual = quote_all(actual_paths);
                let quoted_expected = quote_all(expected_paths);
                path_mismatch_message(&quoted_actual, &quoted_expected)
            },
        }
    }

    /// What the error says of itself and of every error that led to it.
    pub fn report(&self) -> (text: String)
        ensures
            text@ == self@.report(),
        decreases self,
    {
        let mut text = self.message();
        match self {
            TestGlobalError::JSONLoadError { file_path, source } => {
                text.append(": ");
                text.append(source.report().as_str());
            },
            TestGlobalError::SubsystemLoadError { subsystem, source } => {
                text.append(": ");
                text.append(source.report().as_str());
            },
            _ => {},
        }
        text
    }
}

} // verus!
