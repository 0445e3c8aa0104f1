//! Export of a payload to a user-chosen file, seeded with a dated default name.
//!
//! The host shows the save dialog and writes the file; the steps here decide
//! what is shown, what is written where, and what the caller gets back.

use vstd::prelude::*;
use crate::date::{date_text, push_date, LocalDate};
use crate::store::StoreError;

verus! {

/// The default name of a backup made on date `d`:
/// `ziyyanmart_backup_YYYY-MM-DD.json`.
pub open spec fn backup_file_name(d: LocalDate) -> Seq<char> {
    "ziyyanmart_backup_"@ + date_text(d) + ".json"@
}

/// The title of the save dialog.
pub open spec fn backup_title() -> Seq<char> {
    "Simpan Backup Data"@
}

/// The default backup file name for date `d`.
pub fn default_backup_name(d: LocalDate) -> (r: String)
    ensures
        r@ == backup_file_name(d),
{
    proof {
        reveal_strlit("ziyyanmart_backup_");
        reveal_strlit(".json");
    }
    let mut out = "ziyyanmart_backup_".to_owned();
    push_date(&mut out, d);
    out.append(".json");
    assert(out@ =~= backup_file_name(d));
    out
}

/// The path the user chose, if any.
pub open spec fn chosen(choice: Option<String>) -> Option<Seq<char>> {
    match choice {
        Some(p) => Some(p@),
        None => None,
    }
}

/// What closing the dialog leads to: writing the payload to the chosen path,
/// or a cancellation where no path was chosen.
pub open spec fn dialog_step(payload: Seq<char>, choice: Option<Seq<char>>) -> Result<
    (Seq<char>, Seq<char>),
    StoreError,
> {
    match choice {
        Some(p) => Ok((p, payload)),
        None => Err(StoreError::UserCancelled),
    }
}

/// What the caller gets once the write to `path` is done: the path, or the
/// write's failure.
pub open spec fn write_step(path: Seq<char>, outcome: Result<(), String>) -> Result<
    Seq<char>,
    StoreError,
> {
    match outcome {
        Ok(_) => Ok(path),
        Err(m) => Err(StoreError::Io(m)),
    }
}

/// A file write to perform: the full contents of the file at `path`.
#[derive(Clone, Debug)]
pub struct BackupWrite {
    pub path: String,
    pub contents: String,
}

impl View for BackupWrite {
    type V = (Seq<char>, Seq<char>);

    open spec fn view(&self) -> (Seq<char>, Seq<char>) {
        (self.path@, self.contents@)
    }
}

/// A backup to export: the payload, written verbatim, and what the save
/// dialog shows.
#[derive(Clone, Debug)]
pub struct BackupRequest {
    pub payload: String,
    pub title: String,
    pub default_name: String,
}

impl BackupRequest {
    /// A backup of `payload` made on date `today`.
    pub fn new(payload: String, today: LocalDate) -> (r: BackupRequest)
        ensures
            r.payload@ == payload@,
            r.title@ == backup_title(),
            r.default_name@ == backup_file_name(today),
    {
        proof {
            reveal_strlit("Simpan Backup Data");
        }
        BackupRequest {
            payload,
            title: "Simpan Backup Data".to_owned(),
            default_name: default_backup_name(today),
        }
    }

    /// The step after the dialog closed with `choice`.
    pub fn on_dialog_closed(&self, choice: Option<String>) -> (r: Result<BackupWrite, StoreError>)
        ensures
            match r {
                Ok(w) => dialog_step(self.payload@, chosen(choice)) == Ok::<
                    (Seq<char>, Seq<char>),
                    StoreError,
                >(w@),
                Err(e) => dialog_step(self.payload@, chosen(choice)) == Err::<
                    (Seq<char>, Seq<char>),
                    StoreError,
                >(e),
            },
    {
        match choice {
            Some(path) => Ok(BackupWrite { path, contents: self.payload.clone() }),
            None => Err(StoreError::UserCancelled),
        }
    }
}

/// What the caller gets once the host performed `write` with `outcome`.
pub fn finish_backup(write: BackupWrite, outcome: Result<(), String>) -> (r: Result<
    String,
    StoreError,
>)
    ensures
        match r {
            Ok(p) => write_step(write@.0, outcome) == Ok::<Seq<char>, StoreError>(p@),
            Err(e) => write_step(write@.0, outcome) == Err::<Seq<char>, StoreError>(e),
        },
{
    match outcome {
        Ok(_) => Ok(write.path),
        Err(m) => Err(StoreError::Io(m)),
    }
}

/// Confirming a path writes exactly the payload there and returns that path
/// once written; dismissing the dialog writes nothing and reports the
/// cancellation.
pub proof fn lemma_backup_writes_payload_or_cancels(
    payload: Seq<char>,
    choice: Option<Seq<char>>,
)
    ensures
        match choice {
            Some(p) => dialog_step(payload, choice) == Ok::<(Seq<char>, Seq<char>), StoreError>(
                (p, payload),
            ) && write_step(p, Ok(())) == Ok::<Seq<char>, StoreError>(p),
            None => dialog_step(payload, choice) matches Err(StoreError::UserCancelled),
        },
{
}

} // verus!
