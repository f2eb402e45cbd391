use vstd::prelude::*;
use crate::error::{ErrorKind, ErrorMessage, HttpError};
use crate::ids::{uuid_text, uuid_to_string};
use crate::models::StoreError;

verus! {

/// The staging directory that uploads are written to.
pub const UPLOAD_DIR: &'static str = "./uploads/temp";

/// The path of a file named `name` in the directory `dir`.
pub open spec fn path_in(dir: Seq<char>, name: Seq<char>) -> Seq<char> {
    dir + seq!['/'] + name
}

/// The name a part is staged under: its declared file name, else the text of
/// a fresh identifier.
pub open spec fn part_name(declared: Option<Seq<char>>, fresh: u128) -> Seq<char> {
    match declared {
        Some(n) => n,
        None => uuid_text(fresh),
    }
}

/// The path of the file `file_name` in the directory `dir`.
pub fn staged_path(dir: &str, file_name: &str) -> (r: String)
    ensures
        r@ == path_in(dir@, file_name@),
{
    let mut p = dir.to_string();
    let slash = "/";
    proof {
        reveal_strlit("/");
    }
    p.append(slash);
    p.append(file_name);
    p
}

/// The name that an uploaded part is staged under.
pub fn choose_file_name(declared: Option<String>, fresh: u128) -> (r: String)
    ensures
        r@ == part_name(
            match declared {
                Some(n) => Some(n@),
                None => None,
            },
            fresh,
        ),
{
    match declared {
        Some(n) => n,
        None => uuid_to_string(fresh),
    }
}

/// A part that has a name and a place in the staging directory.
#[derive(Debug)]
pub struct StagedPart {
    pub file_name: String,
    pub file_path: String,
}

/// Where an upload stands.
#[derive(Debug)]
pub enum UploadPhase {
    /// The staging directory is being created.
    AwaitDirectory,
    /// The next part is being read.
    AwaitPart,
    /// The current part's bytes are being written to the staging file.
    AwaitWrite(StagedPart),
    /// The staged file is with the analysis collaborator.
    AwaitAnalysis(StagedPart),
    /// The document record is being inserted.
    AwaitInsert,
    /// A response has been given.
    Finished,
}

/// What happened since the last action of an upload.
#[derive(Debug)]
pub enum UploadEvent {
    /// The staging directory was created, or not.
    DirectoryCreated(bool),
    /// A part was read whole, with its declared file name, if any, and a fresh
    /// identifier for naming it otherwise.
    PartRead { file_name: Option<String>, fresh: u128 },
    /// Reading the next part or its bytes failed.
    PartUnreadable,
    /// The request holds no more parts.
    NoMoreParts,
    /// The staging file was written, or not.
    Written(bool),
    /// The analysis gave a result, or failed (`None`).
    Analyzed(Option<serde_json::Value>),
    /// The document record was inserted, or not.
    Inserted(bool),
}

/// What the caller of an upload does next.
#[derive(Debug)]
pub enum UploadAction {
    CreateDirectory { path: String },
    ReadNextPart,
    WriteFile { path: String },
    Analyze { path: String, file_name: String },
    InsertRecord { owner: u128, path: String, analysis: Option<serde_json::Value> },
    Respond(Result<(), HttpError>),
}

/// An upload of a multipart body for one identity: each part in turn is
/// staged, analysed at best effort, and recorded.
#[derive(Debug)]
pub struct Upload {
    pub owner: u128,
    pub dir: String,
    pub phase: UploadPhase,
    /// How many document records were inserted.
    pub recorded: usize,
}

pub open spec fn failed(reason: ErrorMessage, kind: ErrorKind) -> UploadAction {
    UploadAction::Respond(Err(HttpError::spec_new(reason, kind)))
}

impl Upload {
    /// Starts an upload for `owner` into the staging directory `dir`; the
    /// first action creates the directory.
    pub fn start(owner: u128, dir: &str) -> (r: (Upload, UploadAction))
        ensures
            r.0.owner == owner,
            r.0.dir@ == dir@,
            r.0.phase is AwaitDirectory,
            r.0.recorded == 0,
            r.1 matches UploadAction::CreateDirectory { path } && path@ == dir@,
    {
        (
            Upload { owner, dir: dir.to_string(), phase: UploadPhase::AwaitDirectory, recorded: 0 },
            UploadAction::CreateDirectory { path: dir.to_string() },
        )
    }

    /// Takes the upload one step: from what happened to the next action.
    /// Failing to read a part is the caller's fault; failing to create the
    /// directory, write a file or insert a record is the server's; a failed
    /// analysis fails nothing, and its part is recorded without a result.
    /// An event that does not fit the phase ends the upload as a server error.
    pub fn step(self, event: UploadEvent) -> (r: (Upload, UploadAction))
        requires
            self.recorded < usize::MAX,
        ensures
            r.0.owner == self.owner,
            r.0.dir == self.dir,
            r.0.recorded == self.recorded + if self.phase is AwaitInsert && event == UploadEvent::Inserted(true) {
                1int
            } else {
                0int
            },
            self.phase is AwaitDirectory ==> match event {
                UploadEvent::DirectoryCreated(true) => r.0.phase is AwaitPart && r.1 == UploadAction::ReadNextPart,
                _ => r.0.phase is Finished && r.1 == failed(ErrorMessage::ServerError, ErrorKind::ServerError),
            },
            self.phase is AwaitPart ==> match event {
                UploadEvent::PartRead { file_name, fresh } => {
                    let name = part_name(
                        match file_name {
                            Some(n) => Some(n@),
                            None => None,
                        },
                        fresh,
                    );
                    &&& r.0.phase matches UploadPhase::AwaitWrite(p) && p.file_name@ == name && p.file_path@
                        == path_in(self.dir@, name)
                    &&& r.1 matches UploadAction::WriteFile { path } && path@ == path_in(self.dir@, name)
                },
                UploadEvent::PartUnreadable => r.0.phase is Finished && r.1 == failed(
                    ErrorMessage::UploadUnreadable,
                    ErrorKind::BadRequest,
                ),
                UploadEvent::NoMoreParts => r.0.phase is Finished && r.1 == UploadAction::Respond(Ok(())),
                _ => r.0.phase is Finished && r.1 == failed(ErrorMessage::ServerError, ErrorKind::ServerError),
            },
            self.phase matches UploadPhase::AwaitWrite(p) ==> match event {
                UploadEvent::Written(true) => r.0.phase == UploadPhase::AwaitAnalysis(p) && r.1
                    == (UploadAction::Analyze { path: p.file_path, file_name: p.file_name }),
                _ => r.0.phase is Finished && r.1 == failed(ErrorMessage::ServerError, ErrorKind::ServerError),
            },
            self.phase matches UploadPhase::AwaitAnalysis(p) ==> match event {
                UploadEvent::Analyzed(result) => r.0.phase is AwaitInsert && r.1 == (UploadAction::InsertRecord {
                    owner: self.owner,
                    path: p.file_path,
                    analysis: result,
                }),
                _ => r.0.phase is Finished && r.1 == failed(ErrorMessage::ServerError, ErrorKind::ServerError),
            },
            self.phase is AwaitInsert ==> match event {
                UploadEvent::Inserted(true) => r.0.phase is AwaitPart && r.1 == UploadAction::ReadNextPart,
                _ => r.0.phase is Finished && r.1 == failed(ErrorMessage::ServerError, ErrorKind::ServerError),
            },
            self.phase is Finished ==> r.0.phase is Finished && r.1 == failed(
                ErrorMessage::ServerError,
                ErrorKind::ServerError,
            ),
    {
        let Upload { owner, dir, phase, recorded } = self;
        let server_error = UploadAction::Respond(Err(HttpError::server_error(ErrorMessage::ServerError)));
        match phase {
            UploadPhase::AwaitDirectory => match event {
                UploadEvent::DirectoryCreated(true) => (
                    Upload { owner, dir, phase: UploadPhase::AwaitPart, recorded },
                    UploadAction::ReadNextPart,
                ),
                _ => (Upload { owner, dir, phase: UploadPhase::Finished, recorded }, server_error),
            },
            UploadPhase::AwaitPart => match event {
                UploadEvent::PartRead { file_name, fresh } => {
                    let name = choose_file_name(file_name, fresh);
                    let path = staged_path(dir.as_str(), name.as_str());
                    let write_to = path.clone();
                    (
                        Upload {
                            owner,
                            dir,
                            phase: UploadPhase::AwaitWrite(StagedPart { file_name: name, file_path: path }),
                            recorded,
                        },
                        UploadAction::WriteFile { path: write_to },
                    )
                },
                UploadEvent::PartUnreadable => (
                    Upload { owner, dir, phase: UploadPhase::Finished, recorded },
                    UploadAction::Respond(Err(HttpError::bad_request(ErrorMessage::UploadUnreadable))),
                ),
                UploadEvent::NoMoreParts => (
                    Upload { owner, dir, phase: UploadPhase::Finished, recorded },
                    UploadAction::Respond(Ok(())),
                ),
                _ => (Upload { owner, dir, phase: UploadPhase::Finished, recorded }, server_error),
            },
            UploadPhase::AwaitWrite(part) => match event {
                UploadEvent::Written(true) => {
                    let path = part.file_path.clone();
                    let name = part.file_name.clone();
                    (
                        Upload { owner, dir, phase: UploadPhase::AwaitAnalysis(part), recorded },
                        UploadAction::Analyze { path, file_name: name },
                    )
                },
                _ => (Upload { owner, dir, phase: UploadPhase::Finished, recorded }, server_error),
            },
            UploadPhase::AwaitAnalysis(part) => match event {
                UploadEvent::Analyzed(result) => (
                    Upload { owner, dir, phase: UploadPhase::AwaitInsert, recorded },
                    UploadAction::InsertRecord { owner, path: part.file_path, analysis: result },
                ),
                _ => (Upload { owner, dir, phase: UploadPhase::Finished, recorded }, server_error),
            },
            UploadPhase::AwaitInsert => match event {
                UploadEvent::Inserted(true) => (
                    Upload { owner, dir, phase: UploadPhase::AwaitPart, recorded: recorded + 1 },
                    UploadAction::ReadNextPart,
                ),
                _ => (Upload { owner, dir, phase: UploadPhase::Finished, recorded }, server_error),
            },
            UploadPhase::Finished => (Upload { owner, dir, phase: UploadPhase::Finished, recorded }, server_error),
        }
    }
}

/// Where the deletion of a document record stands.
#[derive(Debug)]
pub enum DeletionPhase {
    /// The record is being looked up.
    AwaitLookup,
    /// The record is being deleted; its staged file is at the path.
    AwaitDelete(String),
    /// The staged file is being removed.
    AwaitRemoval,
    /// A response has been given.
    Finished,
}

/// What happened since the last action of a deletion.
#[derive(Debug)]
pub enum DeletionEvent {
    /// The lookup gave the record's staged path, no record, or failed.
    LookedUp(Result<Option<String>, StoreError>),
    /// The record was deleted, or the store failed.
    Deleted(Result<(), StoreError>),
    /// The staged file was removed, or not.
    FileRemoved(bool),
}

/// What the caller of a deletion does next.
#[derive(Debug)]
pub enum DeletionAction {
    LookupRecord { owner: u128, resume_id: u128 },
    DeleteRecord { owner: u128, resume_id: u128 },
    RemoveFile { path: String },
    Respond(Result<(), HttpError>),
}

/// The deletion of one document record of one identity. The record is the
/// source of truth: once it is gone the deletion succeeds, whatever becomes
/// of the staged file.
#[derive(Debug)]
pub struct Deletion {
    pub owner: u128,
    pub resume_id: u128,
    pub phase: DeletionPhase,
}

pub open spec fn deletion_failed(reason: ErrorMessage, kind: ErrorKind) -> DeletionAction {
    DeletionAction::Respond(Err(HttpError::spec_new(reason, kind)))
}

impl Deletion {
    /// Starts deleting the record `resume_id` of `owner`; the first action
    /// looks it up.
    pub fn start(owner: u128, resume_id: u128) -> (r: (Deletion, DeletionAction))
        ensures
            r.0 == (Deletion { owner, resume_id, phase: DeletionPhase::AwaitLookup }),
            r.1 == (DeletionAction::LookupRecord { owner, resume_id }),
    {
        (
            Deletion { owner, resume_id, phase: DeletionPhase::AwaitLookup },
            DeletionAction::LookupRecord { owner, resume_id },
        )
    }

    /// Takes the deletion one step: from what happened to the next action.
    /// An event that does not fit the phase ends it as a server error.
    pub fn step(self, event: DeletionEvent) -> (r: (Deletion, DeletionAction))
        ensures
            r.0.owner == self.owner,
            r.0.resume_id == self.resume_id,
            self.phase is AwaitLookup ==> match event {
                DeletionEvent::LookedUp(Ok(Some(path))) => r.0.phase == DeletionPhase::AwaitDelete(path) && r.1
                    == (DeletionAction::DeleteRecord { owner: self.owner, resume_id: self.resume_id }),
                DeletionEvent::LookedUp(Ok(None)) => r.0.phase is Finished && r.1 == deletion_failed(
                    ErrorMessage::ResumeNotFound,
                    ErrorKind::BadRequest,
                ),
                _ => r.0.phase is Finished && r.1 == deletion_failed(ErrorMessage::ServerError, ErrorKind::ServerError),
            },
            self.phase matches DeletionPhase::AwaitDelete(path) ==> match event {
                DeletionEvent::Deleted(Ok(())) => r.0.phase is AwaitRemoval && r.1 == (DeletionAction::RemoveFile {
                    path,
                }),
                _ => r.0.phase is Finished && r.1 == deletion_failed(ErrorMessage::ServerError, ErrorKind::ServerError),
            },
            self.phase is AwaitRemoval ==> match event {
                DeletionEvent::FileRemoved(_) => r.0.phase is Finished && r.1 == DeletionAction::Respond(Ok(())),
                _ => r.0.phase is Finished && r.1 == deletion_failed(ErrorMessage::ServerError, ErrorKind::ServerError),
            },
            self.phase is Finished ==> r.0.phase is Finished && r.1 == deletion_failed(
                ErrorMessage::ServerError,
                ErrorKind::ServerError,
            ),
    {
        let Deletion { owner, resume_id, phase } = self;
        let server_error = DeletionAction::Respond(Err(HttpError::server_error(ErrorMessage::ServerError)));
        match phase {
            DeletionPhase::AwaitLookup => match event {
                DeletionEvent::LookedUp(Ok(Some(path))) => (
                    Deletion { owner, resume_id, phase: DeletionPhase::AwaitDelete(path) },
                    DeletionAction::DeleteRecord { owner, resume_id },
                ),
                DeletionEvent::LookedUp(Ok(None)) => (
                    Deletion { owner, resume_id, phase: DeletionPhase::Finished },
                    DeletionAction::Respond(Err(HttpError::bad_request(ErrorMessage::ResumeNotFound))),
                ),
                _ => (Deletion { owner, resume_id, phase: DeletionPhase::Finished }, server_error),
            },
            DeletionPhase::AwaitDelete(path) => match event {
                DeletionEvent::Deleted(Ok(())) => (
                    Deletion { owner, resume_id, phase: DeletionPhase::AwaitRemoval },
                    DeletionAction::RemoveFile { path },
                ),
                _ => (Deletion { owner, resume_id, phase: DeletionPhase::Finished }, server_error),
            },
            DeletionPhase::AwaitRemoval => match event {
                DeletionEvent::FileRemoved(_) => (
                    Deletion { owner, resume_id, phase: DeletionPhase::Finished },
                    DeletionAction::Respond(Ok(())),
                ),
                _ => (Deletion { owner, resume_id, phase: DeletionPhase::Finished }, server_error),
            },
            DeletionPhase::Finished => (Deletion { owner, resume_id, phase: DeletionPhase::Finished }, server_error),
        }
    }
}

} // verus!
