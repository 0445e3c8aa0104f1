//! The two document slots, and the decisions of loading and saving them.
//!
//! The host resolves the application-data directory, reads and writes the
//! files, and hands the outcomes to the functions here.

use vstd::prelude::*;
use crate::json::{
    json_null, null_json, parse_json, pretty_json, print_json_pretty, read_json,
};

verus! {

/// A named document kept in one file of the application-data directory.
#[derive(Clone, Copy, Debug, PartialEq, Eq, Structural)]
pub enum Slot {
    Settings,
    Database,
}

/// The fixed file name of a slot.
pub open spec fn slot_file_name(slot: Slot) -> Seq<char> {
    match slot {
        Slot::Settings => seq!['s', 'e', 't', 't', 'i', 'n', 'g', 's', '.', 'j', 's', 'o', 'n'],
        Slot::Database => seq!['d', 'a', 't', 'a', 'b', 'a', 's', 'e', '.', 'j', 's', 'o', 'n'],
    }
}

impl Slot {
    /// `settings.json` or `database.json`.
    pub fn file_name(&self) -> (r: String)
        ensures
            r@ == slot_file_name(*self),
    {
        match self {
            Slot::Settings => {
                proof {
                    reveal_strlit("settings.json");
                }
                "settings.json".to_owned()
            },
            Slot::Database => {
                proof {
                    reveal_strlit("database.json");
                }
                "database.json".to_owned()
            },
        }
    }
}

/// Why an operation failed.
#[derive(Clone, Debug)]
pub enum StoreError {
    /// The application-data directory cannot be determined.
    PathResolution,
    /// Reading, writing or creating a directory failed, with the system's message.
    Io(String),
    /// A stored file does not hold valid JSON.
    Parse(String),
    /// A value could not be printed as JSON.
    Serialization(String),
    /// The user dismissed the backup dialog.
    UserCancelled,
}

/// The message shown where the application-data directory is unknown.
pub open spec fn path_resolution_text() -> Seq<char> {
    "the application data directory cannot be determined"@
}

/// The message shown where the user dismissed the backup dialog.
pub open spec fn cancelled_text() -> Seq<char> {
    "Proses penyimpanan backup dibatalkan."@
}

/// The single readable message that a failure is reported as.
pub open spec fn error_text(e: StoreError) -> Seq<char> {
    match e {
        StoreError::PathResolution => path_resolution_text(),
        StoreError::Io(m) => m@,
        StoreError::Parse(m) => m@,
        StoreError::Serialization(m) => m@,
        StoreError::UserCancelled => cancelled_text(),
    }
}

impl StoreError {
    /// The failure as one readable message.
    pub fn message(&self) -> (r: String)
        ensures
            r@ == error_text(*self),
    {
        match self {
            StoreError::PathResolution => {
                proof {
                    reveal_strlit("the application data directory cannot be determined");
                }
                "the application data directory cannot be determined".to_owned()
            },
            StoreError::Io(m) => m.clone(),
            StoreError::Parse(m) => m.clone(),
            StoreError::Serialization(m) => m.clone(),
            StoreError::UserCancelled => {
                proof {
                    reveal_strlit("Proses penyimpanan backup dibatalkan.");
                }
                "Proses penyimpanan backup dibatalkan.".to_owned()
            },
        }
    }
}

/// Where a slot's file lies: a directory and a file name in it.
#[derive(Clone, Debug)]
pub struct SlotPath {
    pub dir: String,
    pub file_name: String,
}

/// Resolves a slot to its file under the application-data directory, which
/// the host found (`Some`) or could not determine (`None`).
pub fn locate(app_dir: Option<String>, slot: Slot) -> (r: Result<SlotPath, StoreError>)
    ensures
        match app_dir {
            None => r matches Err(StoreError::PathResolution),
            Some(d) => r matches Ok(p) && p.dir@ == d@ && p.file_name@ == slot_file_name(slot),
        },
{
    match app_dir {
        None => Err(StoreError::PathResolution),
        Some(d) => Ok(SlotPath { dir: d, file_name: slot.file_name() }),
    }
}

/// What the host found at a slot's file.
#[derive(Clone, Debug)]
pub enum FileState {
    /// No file exists.
    Missing,
    /// The file exists but could not be read, with the system's message.
    Unreadable(String),
    /// The file's full text.
    Text(String),
}

/// The contents of an existing, readable file; `None` for a missing one.
pub open spec fn stored_text(file: FileState) -> Option<Seq<char>> {
    match file {
        FileState::Text(t) => Some(t@),
        _ => None,
    }
}

/// What loading finds in a file's contents: `null` where there is no file,
/// the value read from the text, or serde_json's message where the text is
/// not JSON.
pub open spec fn loaded(contents: Option<Seq<char>>) -> Result<serde_json::Value, Seq<char>> {
    match contents {
        None => Ok(json_null()),
        Some(t) => read_json(t),
    }
}

/// Reads a stored text as a JSON value.
pub fn decode_document(text: &str) -> (r: Result<serde_json::Value, StoreError>)
    ensures
        match read_json(text@) {
            Ok(v) => r == Ok::<serde_json::Value, StoreError>(v),
            Err(m) => r matches Err(StoreError::Parse(e)) && e@ == m,
        },
{
    match parse_json(text) {
        Ok(v) => Ok(v),
        Err(m) => Err(StoreError::Parse(m)),
    }
}

/// Prints a value as the pretty, multi-line JSON text that a slot's file
/// holds. A printing failure is reported as `Serialization`; for a JSON value
/// none occurs.
pub fn encode_document(value: &serde_json::Value) -> (r: Result<String, StoreError>)
    ensures
        r matches Ok(s) && s@ == pretty_json(*value),
{
    match print_json_pretty(value) {
        Ok(s) => Ok(s),
        Err(m) => Err(StoreError::Serialization(m)),
    }
}

/// The loaded document: `null` for a missing file, the value that the file's
/// text holds, an I/O failure for an unreadable file, or a parse failure.
pub fn load_document(file: FileState) -> (r: Result<serde_json::Value, StoreError>)
    ensures
        match file {
            FileState::Unreadable(m) => r matches Err(StoreError::Io(e)) && e@ == m@,
            _ => match loaded(stored_text(file)) {
                Ok(v) => r == Ok::<serde_json::Value, StoreError>(v),
                Err(m) => r matches Err(StoreError::Parse(e)) && e@ == m,
            },
        },
{
    match file {
        FileState::Missing => Ok(null_json()),
        FileState::Unreadable(m) => Err(StoreError::Io(m)),
        FileState::Text(t) => decode_document(t.as_str()),
    }
}

/// What a save writes: the directory to create (with its ancestors) where it
/// is missing, and then the file's full new text.
#[derive(Clone, Debug)]
pub struct SavePlan {
    pub location: SlotPath,
    pub text: String,
}

/// Plans saving `value` to a slot under the application-data directory.
pub fn plan_save(app_dir: Option<String>, slot: Slot, value: &serde_json::Value) -> (r: Result<
    SavePlan,
    StoreError,
>)
    ensures
        match app_dir {
            None => r matches Err(StoreError::PathResolution),
            Some(d) => r matches Ok(p) && p.location.dir@ == d@ && p.location.file_name@
                == slot_file_name(slot) && p.text@ == pretty_json(*value) && forall|
                files: Map<Seq<char>, Seq<char>>,
            |
                #[trigger] after_save(files, slot, *value) == files.insert(
                    p.location.file_name@,
                    p.text@,
                ),
        },
{
    let location = match locate(app_dir, slot) {
        Ok(p) => p,
        Err(e) => {
            return Err(e);
        },
    };
    match encode_document(value) {
        Ok(text) => Ok(SavePlan { location, text }),
        Err(e) => Err(e),
    }
}

/// The files of the application-data directory after saving `v` to `slot`:
/// the slot's file holds the value's printed text, whatever it held before.
pub open spec fn after_save(files: Map<Seq<char>, Seq<char>>, slot: Slot, v: serde_json::Value) -> Map<
    Seq<char>,
    Seq<char>,
> {
    files.insert(slot_file_name(slot), pretty_json(v))
}

/// The contents of a slot's file among `files`; `None` where it does not exist.
pub open spec fn contents_of(files: Map<Seq<char>, Seq<char>>, slot: Slot) -> Option<Seq<char>> {
    if files.dom().contains(slot_file_name(slot)) {
        Some(files[slot_file_name(slot)])
    } else {
        None
    }
}

/// What loading a slot finds among `files`.
pub open spec fn load_from(files: Map<Seq<char>, Seq<char>>, slot: Slot) -> Result<
    serde_json::Value,
    Seq<char>,
> {
    loaded(contents_of(files, slot))
}

/// A slot whose file was never saved loads as `null`, not as a failure.
pub proof fn lemma_unsaved_slot_loads_null(files: Map<Seq<char>, Seq<char>>, slot: Slot)
    requires
        !files.dom().contains(slot_file_name(slot)),
    ensures
        load_from(files, slot) == Ok::<serde_json::Value, Seq<char>>(json_null()),
{
}

/// Saving the same value twice leaves byte-identical contents, and the same
/// files as saving it once.
pub proof fn lemma_save_same_value_same_bytes(
    files: Map<Seq<char>, Seq<char>>,
    slot: Slot,
    v: serde_json::Value,
)
    ensures
        contents_of(after_save(files, slot, v), slot) == Some(pretty_json(v)),
        contents_of(after_save(after_save(files, slot, v), slot, v), slot) == Some(pretty_json(v)),
        after_save(after_save(files, slot, v), slot, v) == after_save(files, slot, v),
{
    assert(after_save(after_save(files, slot, v), slot, v) =~= after_save(files, slot, v));
}

/// Of two saves to one slot the last wins in full: the file holds the second
/// value's text alone, and loading reads that text back.
pub proof fn lemma_last_save_wins(
    files: Map<Seq<char>, Seq<char>>,
    slot: Slot,
    v1: serde_json::Value,
    v2: serde_json::Value,
)
    ensures
        after_save(after_save(files, slot, v1), slot, v2) == after_save(files, slot, v2),
        contents_of(after_save(after_save(files, slot, v1), slot, v2), slot) == Some(
            pretty_json(v2),
        ),
        load_from(after_save(after_save(files, slot, v1), slot, v2), slot) == read_json(
            pretty_json(v2),
        ),
{
    assert(after_save(after_save(files, slot, v1), slot, v2) =~= after_save(files, slot, v2));
}

/// Loading after a save reads back the text that the save printed.
pub proof fn lemma_load_reads_saved_text(
    files: Map<Seq<char>, Seq<char>>,
    slot: Slot,
    v: serde_json::Value,
)
    ensures
        load_from(after_save(files, slot, v), slot) == read_json(pretty_json(v)),
{
}

/// Saving to one slot leaves what the other slot loads unchanged.
pub proof fn lemma_slots_independent(
    files: Map<Seq<char>, Seq<char>>,
    saved: Slot,
    other: Slot,
    v: serde_json::Value,
)
    requires
        saved != other,
    ensures
        contents_of(after_save(files, saved, v), other) == contents_of(files, other),
        load_from(after_save(files, saved, v), other) == load_from(files, other),
{
    assert(slot_file_name(Slot::Settings)[0] != slot_file_name(Slot::Database)[0]);
    assert(slot_file_name(saved) != slot_file_name(other));
}

/// A file that does not hold JSON fails to load, with serde_json's message
/// for its text.
pub proof fn lemma_malformed_file_fails(files: Map<Seq<char>, Seq<char>>, slot: Slot)
    requires
        files.dom().contains(slot_file_name(slot)),
        read_json(files[slot_file_name(slot)]) is Err,
    ensures
        load_from(files, slot) == read_json(files[slot_file_name(slot)]),
        load_from(files, slot) is Err,
{
}

} // verus!
