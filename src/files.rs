//! The file service: a base directory set at run time, and the four file
//! actions resolved against it.
use vstd::prelude::*;
use vstd::string::*;

use crate::outcome::{opt_view, outcome_view, Outcome, OutcomeKind, OutcomeView};
use crate::text::{eq_ignore_ascii_case, matches_ignore_ascii_case};

verus! {

/// The actions that the file service understands.
#[derive(Clone, Copy, Debug, PartialEq, Eq, Structural)]
pub enum FileAction {
    ReadFile,
    WriteFile,
    ListFiles,
    DeleteFile,
}

/// The action that `name` denotes, if any; names are matched without regard
/// to ASCII case.
pub open spec fn file_action_of(name: Seq<char>) -> Option<FileAction> {
    if eq_ignore_ascii_case(name, "read_file"@) {
        Some(FileAction::ReadFile)
    } else if eq_ignore_ascii_case(name, "write_file"@) {
        Some(FileAction::WriteFile)
    } else if eq_ignore_ascii_case(name, "list_files"@) {
        Some(FileAction::ListFiles)
    } else if eq_ignore_ascii_case(name, "delete_file"@) {
        Some(FileAction::DeleteFile)
    } else {
        None
    }
}

pub fn parse_file_action(name: &str) -> (r: Option<FileAction>)
    ensures
        r == file_action_of(name@),
{
    if matches_ignore_ascii_case(name, "read_file") {
        Some(FileAction::ReadFile)
    } else if matches_ignore_ascii_case(name, "write_file") {
        Some(FileAction::WriteFile)
    } else if matches_ignore_ascii_case(name, "list_files") {
        Some(FileAction::ListFiles)
    } else if matches_ignore_ascii_case(name, "delete_file") {
        Some(FileAction::DeleteFile)
    } else {
        None
    }
}

/// An action envelope of the file service.
#[derive(Debug)]
pub struct FileRequest {
    pub action: String,
    pub path: Option<String>,
    pub content: Option<String>,
}

pub struct FileRequestView {
    pub action: Seq<char>,
    pub path: Option<Seq<char>>,
    pub content: Option<Seq<char>>,
}

impl View for FileRequest {
    type V = FileRequestView;

    open spec fn view(&self) -> FileRequestView {
        FileRequestView {
            action: self.action@,
            path: opt_view(self.path),
            content: opt_view(self.content),
        }
    }
}

/// A validated file operation. `path` is the path as the request gave it,
/// `full_path` the path that the operation touches.
#[derive(Debug)]
pub enum FileOp {
    Read { path: String, full_path: String },
    Write { path: String, full_path: String, content: String },
    List { path: String, full_path: String },
    Delete { path: String, full_path: String },
}

pub enum FileOpView {
    Read { path: Seq<char>, full_path: Seq<char> },
    Write { path: Seq<char>, full_path: Seq<char>, content: Seq<char> },
    List { path: Seq<char>, full_path: Seq<char> },
    Delete { path: Seq<char>, full_path: Seq<char> },
}

impl View for FileOp {
    type V = FileOpView;

    open spec fn view(&self) -> FileOpView {
        match self {
            FileOp::Read { path, full_path } => FileOpView::Read {
                path: path@,
                full_path: full_path@,
            },
            FileOp::Write { path, full_path, content } => FileOpView::Write {
                path: path@,
                full_path: full_path@,
                content: content@,
            },
            FileOp::List { path, full_path } => FileOpView::List {
                path: path@,
                full_path: full_path@,
            },
            FileOp::Delete { path, full_path } => FileOpView::Delete {
                path: path@,
                full_path: full_path@,
            },
        }
    }
}

/// What the dispatcher decided: answer at once, or perform one operation.
#[derive(Debug)]
pub enum FilePlan {
    Respond(Outcome),
    Perform(FileOp),
}

pub enum FilePlanView {
    Respond(OutcomeView),
    Perform(FileOpView),
}

impl View for FilePlan {
    type V = FilePlanView;

    open spec fn view(&self) -> FilePlanView {
        match self {
            FilePlan::Respond(o) => FilePlanView::Respond(o@),
            FilePlan::Perform(op) => FilePlanView::Perform(op@),
        }
    }
}

/// A request-relative path resolved against the base directory, by plain
/// concatenation.
pub open spec fn full_path_of(base: Seq<char>, path: Seq<char>) -> Seq<char> {
    base + "/"@ + path
}

pub open spec fn invalid_input(message: Seq<char>) -> FilePlanView {
    FilePlanView::Respond(outcome_view(OutcomeKind::InvalidInput, message, None))
}

/// The dispatcher's decision for `req` against the base directory `base`.
pub open spec fn file_plan_of(base: Seq<char>, req: FileRequestView) -> FilePlanView {
    match file_action_of(req.action) {
        None => FilePlanView::Respond(
            outcome_view(OutcomeKind::Unsupported, "Unsupported action: "@ + req.action, None),
        ),
        Some(FileAction::ReadFile) => match req.path {
            Some(p) => FilePlanView::Perform(
                FileOpView::Read { path: p, full_path: full_path_of(base, p) },
            ),
            None => invalid_input("Path is required for reading a file"@),
        },
        Some(FileAction::WriteFile) => match (req.path, req.content) {
            (Some(p), Some(c)) => FilePlanView::Perform(
                FileOpView::Write { path: p, full_path: full_path_of(base, p), content: c },
            ),
            _ => invalid_input("Both path and content are required for writing a file"@),
        },
        Some(FileAction::ListFiles) => match req.path {
            Some(p) => FilePlanView::Perform(
                FileOpView::List { path: p, full_path: full_path_of(base, p) },
            ),
            None => invalid_input("Path is required for listing files"@),
        },
        Some(FileAction::DeleteFile) => match req.path {
            Some(p) => FilePlanView::Perform(
                FileOpView::Delete { path: p, full_path: full_path_of(base, p) },
            ),
            None => invalid_input("Path is required for deleting a file"@),
        },
    }
}

pub fn resolve_path(base: &str, path: &str) -> (r: String)
    ensures
        r@ == full_path_of(base@, path@),
{
    let mut full = String::from_str(base);
    full.append("/");
    full.append(path);
    full
}

/// The dispatcher: validates `req` and resolves its path against `base`,
/// touching nothing; an unknown action or a missing field is answered at once.
pub fn plan_file_action(base: &str, req: &FileRequest) -> (r: FilePlan)
    ensures
        r@ == file_plan_of(base@, req@),
{
    match parse_file_action(req.action.as_str()) {
        None => FilePlan::Respond(
            Outcome::tagged(OutcomeKind::Unsupported, "Unsupported action: ", req.action.as_str()),
        ),
        Some(FileAction::ReadFile) => match &req.path {
            Some(p) => FilePlan::Perform(
                FileOp::Read { path: p.clone(), full_path: resolve_path(base, p.as_str()) },
            ),
            None => FilePlan::Respond(
                Outcome::plain(OutcomeKind::InvalidInput, "Path is required for reading a file"),
            ),
        },
        Some(FileAction::WriteFile) => match (&req.path, &req.content) {
            (Some(p), Some(c)) => FilePlan::Perform(
                FileOp::Write {
                    path: p.clone(),
                    full_path: resolve_path(base, p.as_str()),
                    content: c.clone(),
                },
            ),
            _ => FilePlan::Respond(
                Outcome::plain(
                    OutcomeKind::InvalidInput,
                    "Both path and content are required for writing a file",
                ),
            ),
        },
        Some(FileAction::ListFiles) => match &req.path {
            Some(p) => FilePlan::Perform(
                FileOp::List { path: p.clone(), full_path: resolve_path(base, p.as_str()) },
            ),
            None => FilePlan::Respond(
                Outcome::plain(OutcomeKind::InvalidInput, "Path is required for listing files"),
            ),
        },
        Some(FileAction::DeleteFile) => match &req.path {
            Some(p) => FilePlan::Perform(
                FileOp::Delete { path: p.clone(), full_path: resolve_path(base, p.as_str()) },
            ),
            None => FilePlan::Respond(
                Outcome::plain(OutcomeKind::InvalidInput, "Path is required for deleting a file"),
            ),
        },
    }
}

pub open spec fn result_view(r: Result<String, String>) -> Result<Seq<char>, Seq<char>> {
    match r {
        Ok(s) => Ok(s@),
        Err(e) => Err(e@),
    }
}

pub open spec fn error_view(r: Result<(), String>) -> Option<Seq<char>> {
    match r {
        Ok(_) => None,
        Err(e) => Some(e@),
    }
}

/// The outcome of reading the file at `path`, given what the read gave: its
/// text, or the description of the error.
pub open spec fn read_outcome_of(path: Seq<char>, result: Result<Seq<char>, Seq<char>>) -> OutcomeView {
    match result {
        Ok(text) => outcome_view(
            OutcomeKind::Success,
            "File read successfully: "@ + path,
            Some(text),
        ),
        Err(e) => outcome_view(OutcomeKind::IoError, "Failed to read file: "@ + e, None),
    }
}

pub open spec fn write_outcome_of(path: Seq<char>, error: Option<Seq<char>>) -> OutcomeView {
    match error {
        None => outcome_view(OutcomeKind::Success, "File written successfully: "@ + path, None),
        Some(e) => outcome_view(OutcomeKind::IoError, "Failed to write file: "@ + e, None),
    }
}

pub open spec fn delete_outcome_of(path: Seq<char>, error: Option<Seq<char>>) -> OutcomeView {
    match error {
        None => outcome_view(OutcomeKind::Success, "File deleted successfully: "@ + path, None),
        Some(e) => outcome_view(OutcomeKind::IoError, "Failed to delete file: "@ + e, None),
    }
}

pub fn read_outcome(path: &str, result: Result<String, String>) -> (r: Outcome)
    ensures
        r@ == read_outcome_of(path@, result_view(result)),
{
    match result {
        Ok(text) => {
            let mut o = Outcome::tagged(OutcomeKind::Success, "File read successfully: ", path);
            o.data = Some(text);
            o
        },
        Err(e) => Outcome::tagged(OutcomeKind::IoError, "Failed to read file: ", e.as_str()),
    }
}

pub fn write_outcome(path: &str, result: Result<(), String>) -> (r: Outcome)
    ensures
        r@ == write_outcome_of(path@, error_view(result)),
{
    match result {
        Ok(_) => Outcome::tagged(OutcomeKind::Success, "File written successfully: ", path),
        Err(e) => Outcome::tagged(OutcomeKind::IoError, "Failed to write file: ", e.as_str()),
    }
}

pub fn delete_outcome(path: &str, result: Result<(), String>) -> (r: Outcome)
    ensures
        r@ == delete_outcome_of(path@, error_view(result)),
{
    match result {
        Ok(_) => Outcome::tagged(OutcomeKind::Success, "File deleted successfully: ", path),
        Err(e) => Outcome::tagged(OutcomeKind::IoError, "Failed to delete file: ", e.as_str()),
    }
}

/// Why a directory could not be listed: it could not be opened, or one of its
/// entries could not be read. Each holds the error's description.
#[derive(Debug)]
pub enum ListFailure {
    ReadDir(String),
    Entry(String),
}

pub enum ListFailureView {
    ReadDir(Seq<char>),
    Entry(Seq<char>),
}

impl View for ListFailure {
    type V = ListFailureView;

    open spec fn view(&self) -> ListFailureView {
        match self {
            ListFailure::ReadDir(e) => ListFailureView::ReadDir(e@),
            ListFailure::Entry(e) => ListFailureView::Entry(e@),
        }
    }
}

/// The JSON text of a list of names.
pub uninterp spec fn json_of_names(names: Seq<Seq<char>>) -> Seq<char>;

pub open spec fn names_view(names: Seq<String>) -> Seq<Seq<char>> {
    names.map_values(|n: String| n@)
}

/// Relies on serde_json::to_string for a list of strings: a JSON array whose
/// text depends on the strings and their order alone; an empty list is `[]`.
#[verifier::external_body]
fn names_to_json(names: &Vec<String>) -> (r: String)
    ensures
        r@ == json_of_names(names_view(names@)),
        names@.len() == 0 ==> r@ == "[]"@,
{
    serde_json::to_string(names).unwrap_or_default()
}

/// The outcome of listing the directory at `path`, given the JSON text of its
/// entry names or the failure.
pub open spec fn listed_outcome_of(path: Seq<char>, result: Result<Seq<char>, ListFailureView>) -> OutcomeView {
    match result {
        Ok(json) => outcome_view(OutcomeKind::Success, "Listed files in: "@ + path, Some(json)),
        Err(ListFailureView::ReadDir(e)) => outcome_view(
            OutcomeKind::IoError,
            "Failed to read directory: "@ + e,
            None,
        ),
        Err(ListFailureView::Entry(e)) => outcome_view(
            OutcomeKind::IoError,
            "Failed to list directory entries: "@ + e,
            None,
        ),
    }
}

/// Builds the listing outcome from the names already encoded as JSON.
pub fn listed_outcome(path: &str, result: Result<String, ListFailure>) -> (r: Outcome)
    ensures
        r@ == listed_outcome_of(
            path@,
            match result {
                Ok(json) => Ok(json@),
                Err(f) => Err(f@),
            },
        ),
{
    match result {
        Ok(json) => {
            let mut o = Outcome::tagged(OutcomeKind::Success, "Listed files in: ", path);
            o.data = Some(json);
            o
        },
        Err(ListFailure::ReadDir(e)) => Outcome::tagged(
            OutcomeKind::IoError,
            "Failed to read directory: ",
            e.as_str(),
        ),
        Err(ListFailure::Entry(e)) => Outcome::tagged(
            OutcomeKind::IoError,
            "Failed to list directory entries: ",
            e.as_str(),
        ),
    }
}

/// Builds the listing outcome from the entry names, in the order given,
/// encoded as a JSON array in the payload.
pub fn list_outcome(path: &str, result: Result<Vec<String>, ListFailure>) -> (r: Outcome)
    ensures
        r@ == listed_outcome_of(
            path@,
            match result {
                Ok(names) => Ok(json_of_names(names_view(names@))),
                Err(f) => Err(f@),
            },
        ),
{
    match result {
        Ok(names) => listed_outcome(path, Ok(names_to_json(&names))),
        Err(f) => listed_outcome(path, Err(f)),
    }
}

/// The base directory before any initialization.
pub open spec fn default_base_path() -> Seq<char> {
    "/tmp"@
}

/// The base directory after an initialization request naming `path`, where
/// `exists` tells whether that path exists.
pub open spec fn base_after_init(base: Seq<char>, path: Option<Seq<char>>, exists: bool) -> Seq<char> {
    match path {
        Some(p) => if exists {
            p
        } else {
            base
        },
        None => base,
    }
}

pub open spec fn init_outcome_of(path: Option<Seq<char>>, exists: bool) -> OutcomeView {
    match path {
        None => outcome_view(OutcomeKind::InvalidInput, "Path parameter is required"@, None),
        Some(p) => if exists {
            outcome_view(OutcomeKind::Success, "Base path set to: "@ + p, None)
        } else {
            outcome_view(OutcomeKind::NotFound, "Path does not exist: "@ + p, None)
        },
    }
}

/// The lifecycle guard of the file service: the base directory against which
/// request paths are resolved. It always holds one, so it is always ready.
#[derive(Debug)]
pub struct FileService {
    base_path: String,
}

impl View for FileService {
    type V = Seq<char>;

    closed spec fn view(&self) -> Seq<char> {
        self.base_path@
    }
}

impl FileService {
    pub fn new() -> (r: FileService)
        ensures
            r@ == default_base_path(),
    {
        FileService { base_path: String::from_str("/tmp") }
    }

    pub fn base_path(&self) -> (r: &str)
        ensures
            r@ == self@,
    {
        self.base_path.as_str()
    }

    /// Sets the base directory to `path`. `path_exists` tells whether `path`
    /// exists on the filesystem; a missing or nonexistent path leaves the base
    /// directory as it was. A new path replaces any earlier one.
    pub fn init_base_path(&mut self, path: Option<String>, path_exists: bool) -> (r: Outcome)
        ensures
            final(self)@ == base_after_init(old(self)@, opt_view(path), path_exists),
            r@ == init_outcome_of(opt_view(path), path_exists),
    {
        match path {
            None => Outcome::plain(OutcomeKind::InvalidInput, "Path parameter is required"),
            Some(p) => {
                if path_exists {
                    let r = Outcome::tagged(OutcomeKind::Success, "Base path set to: ", p.as_str());
                    self.base_path = p;
                    r
                } else {
                    Outcome::tagged(OutcomeKind::NotFound, "Path does not exist: ", p.as_str())
                }
            },
        }
    }

    /// Dispatches `req` against the current base directory.
    pub fn plan(&self, req: &FileRequest) -> (r: FilePlan)
        ensures
            r@ == file_plan_of(self@, req@),
    {
        plan_file_action(self.base_path.as_str(), req)
    }
}

/// Initializing with `a` and then with `b`, both existing, leaves `b` as the
/// base directory: every later request is dispatched exactly as against `b`,
/// whatever came before.
pub proof fn lemma_init_overwrites(base: Seq<char>, a: Seq<char>, b: Seq<char>, req: FileRequestView)
    ensures
        base_after_init(base_after_init(base, Some(a), true), Some(b), true) == b,
        file_plan_of(base_after_init(base_after_init(base, Some(a), true), Some(b), true), req)
            == file_plan_of(b, req),
{
}

/// A `write_file` request that lacks its path or its content is answered with
/// an invalid-input outcome and yields no operation.
pub proof fn lemma_write_needs_path_and_content(base: Seq<char>, req: FileRequestView)
    requires
        file_action_of(req.action) == Some(FileAction::WriteFile),
        req.path is None || req.content is None,
    ensures
        file_plan_of(base, req) == FilePlanView::Respond(
            outcome_view(
                OutcomeKind::InvalidInput,
                "Both path and content are required for writing a file"@,
                None,
            ),
        ),
{
}

/// An unknown action is answered with an unsupported-action outcome naming
/// it, and yields no operation.
pub proof fn lemma_unknown_file_action(base: Seq<char>, req: FileRequestView)
    requires
        file_action_of(req.action) is None,
    ensures
        file_plan_of(base, req) == FilePlanView::Respond(
            outcome_view(OutcomeKind::Unsupported, "Unsupported action: "@ + req.action, None),
        ),
{
}

/// Writing `content` to `path` and then reading `path` touch the same file,
/// and a read that returns what was written reports exactly that text.
pub proof fn lemma_write_then_read(base: Seq<char>, path: Seq<char>, content: Seq<char>)
    ensures
        file_plan_of(
            base,
            FileRequestView { action: "write_file"@, path: Some(path), content: Some(content) },
        ) == FilePlanView::Perform(
            FileOpView::Write { path, full_path: full_path_of(base, path), content },
        ),
        file_plan_of(
            base,
            FileRequestView { action: "read_file"@, path: Some(path), content: None },
        ) == FilePlanView::Perform(FileOpView::Read { path, full_path: full_path_of(base, path) }),
        read_outcome_of(path, Ok(content)).kind == OutcomeKind::Success,
        read_outcome_of(path, Ok(content)).data == Some(content),
{
    reveal_strlit("read_file");
    reveal_strlit("write_file");
    assert(!eq_ignore_ascii_case("write_file"@, "read_file"@));
    assert(eq_ignore_ascii_case("write_file"@, "write_file"@));
    assert(eq_ignore_ascii_case("read_file"@, "read_file"@));
}

} // verus!
