//! The request side of a presigned upload: validating the request, settling
//! the declared content type, deriving the object key, and reporting a
//! task's status to the client that polls it.
use vstd::prelude::*;
use vstd::arithmetic::power::pow;
use vstd::utf8::encode_utf8;
use crate::error::HttpFileError;
use crate::presigned::{opt_view, CreatePresigned, PresignedTaskStatus, StatusModel, UploadTasks};
use crate::scope::DocumentBoxScope;

verus! {

/// The content type that carries no information.
pub const OCTET_STREAM: &'static str = "application/octet-stream";

/// Request to create a presigned upload.
#[derive(Debug)]
pub struct CreatePresignedRequest {
    /// Name of the file being uploaded.
    pub name: String,
    /// Folder to store the file in.
    pub folder_id: u128,
    /// Declared size of the file, in bytes.
    pub size: i32,
    /// Declared content type.
    pub mime: String,
    /// Optional parent file.
    pub parent_id: Option<u128>,
    /// Optional processing configuration, in its serialised form.
    pub processing_config: Option<String>,
    /// When not `Some(true)`, an `application/octet-stream` type is replaced
    /// by the one the file name's extension suggests.
    pub disable_mime_sniffing: Option<bool>,
}

/// The extension of a file name: what follows its last `.`, unless that
/// `.` is the name's first character.
pub open spec fn file_extension(name: Seq<char>) -> Option<Seq<char>>
    decreases name.len(),
{
    if name.len() <= 1 {
        None
    } else if name.last() == '.' {
        Some(Seq::empty())
    } else {
        match file_extension(name.drop_last()) {
            Some(e) => Some(e.push(name.last())),
            None => None,
        }
    }
}

/// The extension of a file name.
pub fn get_file_name_ext(name: &str) -> (r: Option<String>)
    ensures
        opt_view(r) == file_extension(name@),
{
    broadcast use vstd::string::group_string_axioms;

    let mut ext: Option<String> = None;
    let mut first = true;
    for c in it: name.chars()
        invariant
            it.seq() == name@,
            first == (it.index() == 0),
            opt_view(ext) == file_extension(name@.subrange(0, it.index())),
    {
        let ghost i = it.index();
        proof {
            assert(name@.subrange(0, i + 1).drop_last() =~= name@.subrange(0, i));
            assert(name@.subrange(0, i + 1).last() == c);
        }
        if c == '.' && !first {
            ext = Some(String::new());
        } else {
            match ext {
                Some(mut e) => {
                    e.push(c);
                    ext = Some(e);
                },
                None => {},
            }
        }
        first = false;
    }
    assert(name@.subrange(0, name@.len() as int) =~= name@);
    ext
}

/// The content type `mime_guess` lists first for an extension.
pub uninterp spec fn guessed_mime(ext: Seq<char>) -> Option<Seq<char>>;

/// Relies on `mime_guess::from_ext` and `MimeGuess::first_raw`: the first
/// type known for the extension; none for an empty extension.
#[verifier::external_body]
fn guess_mime(ext: &str) -> (r: Option<String>)
    ensures
        opt_view(r) == guessed_mime(ext@),
        ext@.len() == 0 ==> r is None,
{
    mime_guess::from_ext(ext).first_raw().map(|m| m.to_string())
}

/// Whether the declared type is to be replaced by a guess.
pub open spec fn sniffing_applies(mime: Seq<char>, disable_mime_sniffing: Option<bool>) -> bool {
    mime == OCTET_STREAM@ && disable_mime_sniffing != Some(true)
}

/// The content type kept for an upload.
pub open spec fn upload_mime_spec(
    name: Seq<char>,
    mime: Seq<char>,
    disable_mime_sniffing: Option<bool>,
) -> Seq<char> {
    if sniffing_applies(mime, disable_mime_sniffing) {
        match file_extension(name) {
            Some(ext) => match guessed_mime(ext) {
                Some(g) => g,
                None => mime,
            },
            None => mime,
        }
    } else {
        mime
    }
}

/// The declared type, replaced by a guess when there is one.
pub fn mime_from_guess(mime: &str, guessed: Option<String>) -> (r: String)
    ensures
        r@ == (match guessed {
            Some(g) => g@,
            None => mime@,
        }),
{
    match guessed {
        Some(g) => g,
        None => mime.to_owned(),
    }
}

/// The content type kept for an upload of `name` declared as `mime`.
pub fn upload_mime(name: &str, mime: &str, disable_mime_sniffing: Option<bool>) -> (r: String)
    ensures
        r@ == upload_mime_spec(name@, mime@, disable_mime_sniffing),
{
    let sniff = match disable_mime_sniffing {
        Some(disabled) => !disabled,
        None => true,
    };
    let declared = mime.to_owned();
    let octet = OCTET_STREAM.to_owned();
    if sniff && declared == octet {
        let guessed = match get_file_name_ext(name) {
            Some(ext) => guess_mime(ext.as_str()),
            None => None,
        };
        mime_from_guess(mime, guessed)
    } else {
        declared
    }
}

impl CreatePresignedRequest {
    /// The request's own constraints: a name of 1 to 255 bytes and a
    /// positive size.
    pub fn validate(&self) -> (r: bool)
        ensures
            r == (1 <= encode_utf8(self.name@).len() as usize <= 255 && self.size >= 1),
    {
        let len = self.name.as_str().len();
        1 <= len && len <= 255 && self.size >= 1
    }

    /// The grant to issue for this request in `scope`, as task `id` bound to
    /// object `file_key`, valid from `created_at` until `expires_at`.
    pub fn into_create(
        self,
        scope: &DocumentBoxScope,
        id: u128,
        file_key: String,
        created_at: i64,
        expires_at: i64,
    ) -> (r: CreatePresigned)
        ensures
            r.id == id,
            r.document_box@ == scope.0@,
            r.folder_id == self.folder_id,
            r.file_key == file_key,
            r.name == self.name,
            r.mime@ == upload_mime_spec(self.name@, self.mime@, self.disable_mime_sniffing),
            r.size == self.size,
            r.processing_config == self.processing_config,
            r.created_at == created_at,
            r.expires_at == expires_at,
    {
        let mime = upload_mime(self.name.as_str(), self.mime.as_str(), self.disable_mime_sniffing);
        CreatePresigned {
            id,
            document_box: scope.0.clone(),
            folder_id: self.folder_id,
            file_key,
            name: self.name,
            mime,
            size: self.size,
            processing_config: self.processing_config,
            created_at,
            expires_at,
        }
    }
}

/// The lowercase hexadecimal digit for `d`, from 0 to 15.
pub open spec fn hex_digit(d: int) -> char {
    seq!['0', '1', '2', '3', '4', '5', '6', '7', '8', '9', 'a', 'b', 'c', 'd', 'e', 'f'][d]
}

/// The 32 hexadecimal digits of `id`, most significant first.
pub open spec fn hex_digits(id: u128) -> Seq<char> {
    Seq::new(32, |k: int| hex_digit((id as int / pow(16, (31 - k) as nat)) % 16))
}

/// The hyphenated text of an identifier: its hexadecimal digits in groups
/// of 8, 4, 4, 4 and 12, joined by `-`.
pub open spec fn hyphenated_uuid(id: u128) -> Seq<char> {
    let h = hex_digits(id);
    h.subrange(0, 8) + "-"@ + h.subrange(8, 12) + "-"@ + h.subrange(12, 16) + "-"@ + h.subrange(
        16,
        20,
    ) + "-"@ + h.subrange(20, 32)
}

/// Relies on `uuid::Uuid::from_u128` and the `Display` of `uuid::Uuid`:
/// the identifier's bytes taken most significant first, written as
/// lowercase hexadecimal in the hyphenated form.
#[verifier::external_body]
fn uuid_text(id: u128) -> (r: String)
    ensures
        r@ == hyphenated_uuid(id),
{
    uuid::Uuid::from_u128(id).to_string()
}

/// The object key for an upload: the scope, `/`, then the identifier.
pub open spec fn file_key_spec(scope: Seq<char>, id: u128) -> Seq<char> {
    scope + "/"@ + hyphenated_uuid(id)
}

/// The storage object key bound to upload `id` in `scope`.
pub fn presigned_file_key(scope: &DocumentBoxScope, id: u128) -> (r: String)
    ensures
        r@ == file_key_spec(scope.0@, id),
{
    let mut key = scope.0.clone();
    key.push_str("/");
    key.push_str(uuid_text(id).as_str());
    key
}

/// What a client polling an upload is told.
#[derive(Debug, PartialEq, Eq)]
pub enum PresignedStatusResponse {
    Pending,
    /// The upload completed into this file.
    Complete { file_id: u128 },
    Failed { error: String },
}

impl UploadTasks {
    /// The status of upload `id` in `scope`: `UnknownTask` when the table
    /// holds no such task in that scope, `UnknownFile` when a completed
    /// task's file is gone.
    pub fn presigned_status(&self, scope: &str, id: u128) -> (r: Result<
        PresignedStatusResponse,
        HttpFileError,
    >)
        requires
            self@.wf(),
        ensures
            !(exists|i: int|
                0 <= i < self@.tasks.len() && #[trigger] self@.tasks[i].id == id
                    && self@.tasks[i].document_box == scope@) ==> r == Err::<
                PresignedStatusResponse,
                HttpFileError,
            >(HttpFileError::UnknownTask),
            r matches Ok(PresignedStatusResponse::Pending) ==> exists|i: int|
                0 <= i < self@.tasks.len() && #[trigger] self@.tasks[i].id == id
                    && self@.tasks[i].document_box == scope@ && self@.tasks[i].status is Pending,
            r matches Ok(PresignedStatusResponse::Failed { error }) ==> exists|i: int|
                0 <= i < self@.tasks.len() && #[trigger] self@.tasks[i].id == id
                    && self@.tasks[i].document_box == scope@ && self@.tasks[i].status
                    == (StatusModel::Failed { error: error@ }),
            r matches Ok(PresignedStatusResponse::Complete { file_id }) ==> self@.has_file_id(file_id)
                && exists|i: int|
                0 <= i < self@.tasks.len() && #[trigger] self@.tasks[i].id == id
                    && self@.tasks[i].document_box == scope@ && self@.tasks[i].status
                    == (StatusModel::Completed { file_id }),
            r == Err::<PresignedStatusResponse, HttpFileError>(HttpFileError::UnknownFile)
                ==> exists|i: int|
                0 <= i < self@.tasks.len() && #[trigger] self@.tasks[i].id == id
                    && self@.tasks[i].document_box == scope@ && self@.tasks[i].status is Completed
                    && !self@.has_file_id(self@.tasks[i].status->file_id),
            r is Err ==> r == Err::<PresignedStatusResponse, HttpFileError>(HttpFileError::UnknownTask)
                || r == Err::<PresignedStatusResponse, HttpFileError>(HttpFileError::UnknownFile),
            forall|i: int|
                0 <= i < self@.tasks.len() && #[trigger] self@.tasks[i].id == id
                    && self@.tasks[i].document_box == scope@ ==> match self@.tasks[i].status {
                    StatusModel::Pending => r == Ok::<PresignedStatusResponse, HttpFileError>(
                        PresignedStatusResponse::Pending,
                    ),
                    StatusModel::Failed { error } => (r matches Ok(
                        PresignedStatusResponse::Failed { error: e },
                    ) && e@ == error),
                    StatusModel::Completed { file_id } => if self@.has_file_id(file_id) {
                        r == Ok::<PresignedStatusResponse, HttpFileError>(
                            PresignedStatusResponse::Complete { file_id },
                        )
                    } else {
                        r == Err::<PresignedStatusResponse, HttpFileError>(HttpFileError::UnknownFile)
                    },
                },
    {
        let task = match self.task(id) {
            Some(t) => t,
            None => return Err(HttpFileError::UnknownTask),
        };
        let wanted = scope.to_owned();
        if task.document_box != wanted {
            proof {
                assert forall|i: int|
                    0 <= i < self@.tasks.len() && #[trigger] self@.tasks[i].id == id implies self@.tasks[i].document_box
                    != scope@ by {
                    let k = choose|k: int| 0 <= k < self@.tasks.len() && self@.tasks[k] == task@;
                    if i != k {
                        assert(self@.tasks[i].id != self@.tasks[k].id);
                    }
                }
            }
            return Err(HttpFileError::UnknownTask);
        }
        let ghost k = choose|k: int| 0 <= k < self@.tasks.len() && self@.tasks[k] == task@;
        assert(self@.tasks[k].id == id && self@.tasks[k].document_box == scope@);
        assert forall|i: int| 0 <= i < self@.tasks.len() && #[trigger] self@.tasks[i].id == id implies i
            == k by {
            if i != k {
                assert(self@.tasks[i].id != self@.tasks[k].id);
            }
        }
        match &task.status {
            PresignedTaskStatus::Pending => Ok(PresignedStatusResponse::Pending),
            PresignedTaskStatus::Failed { error } => Ok(
                PresignedStatusResponse::Failed { error: error.clone() },
            ),
            PresignedTaskStatus::Completed { file_id } => match self.file(*file_id) {
                Some(_) => Ok(PresignedStatusResponse::Complete { file_id: *file_id }),
                None => Err(HttpFileError::UnknownFile),
            },
        }
    }
}

} // verus!
