//! The device id store: one file per user in the storage directory of a
//! server, holding the device id that the server issued at the first login.
//!
//! Reading and writing the file is the caller's part. This module says which
//! file it is, what is written to it, and what a read means.
use vstd::prelude::*;
use vstd::string::StringExecFns;

verus! {

/// The name of a user's device id file: the user name followed by a dot and
/// the extension `device_id`.
pub open spec fn spec_file_name(user_name: Seq<char>) -> Seq<char> {
    user_name + ".device_id"@
}

/// The name, inside the storage directory of a server, of the file that holds
/// the device id of `user_name`.
pub fn file_name(user_name: &str) -> (name: String)
    ensures
        name@ == spec_file_name(user_name@),
{
    let mut name = user_name.to_owned();
    name.append(".device_id");
    name
}

/// What came of reading a device id file.
#[derive(Clone, Debug, PartialEq, Eq)]
pub enum ReadOutcome {
    /// The file was read and held this text.
    Content(String),
    /// There is no such file.
    NotFound,
    /// The read failed for another reason, described by the text.
    Failed(String),
}

/// The mathematical value of a [`ReadOutcome`].
pub ghost enum ReadView {
    Content(Seq<char>),
    NotFound,
    Failed(Seq<char>),
}

impl View for ReadOutcome {
    type V = ReadView;

    open spec fn view(&self) -> ReadView {
        match self {
            ReadOutcome::Content(text) => ReadView::Content(text@),
            ReadOutcome::NotFound => ReadView::NotFound,
            ReadOutcome::Failed(detail) => ReadView::Failed(detail@),
        }
    }
}

/// What a read means: a missing or empty file is no identity, a file with
/// text holds the identity, and any other failure is an error that carries
/// its description.
pub open spec fn spec_load(outcome: ReadView) -> Result<Option<Seq<char>>, Seq<char>> {
    match outcome {
        ReadView::Content(text) => if text.len() == 0 {
            Ok(None)
        } else {
            Ok(Some(text))
        },
        ReadView::NotFound => Ok(None),
        ReadView::Failed(detail) => Err(detail),
    }
}

/// The view of a loaded identity or of the error in its place.
pub open spec fn loaded_view(loaded: Result<Option<String>, String>) -> Result<
    Option<Seq<char>>,
    Seq<char>,
> {
    match loaded {
        Ok(Some(id)) => Ok(Some(id@)),
        Ok(None) => Ok(None),
        Err(detail) => Err(detail@),
    }
}

/// The stored device id, given what came of reading the user's file.
///
/// A missing file and an empty file both mean that no identity is stored,
/// which is no error. Every other failure to read is returned as the error.
pub fn load_device_id(outcome: ReadOutcome) -> (loaded: Result<Option<String>, String>)
    ensures
        loaded_view(loaded) == spec_load(outcome@),
{
    match outcome {
        ReadOutcome::Content(text) => {
            if text.as_str().is_empty() {
                Ok(None)
            } else {
                Ok(Some(text))
            }
        },
        ReadOutcome::NotFound => Ok(None),
        ReadOutcome::Failed(detail) => Err(detail),
    }
}

/// A file to write: its name inside the server's storage directory and the
/// text that replaces whatever the file held.
#[derive(Clone, Debug, PartialEq, Eq)]
pub struct WriteRequest {
    pub file_name: String,
    pub content: String,
}

/// The mathematical value of a [`WriteRequest`].
pub ghost struct WriteView {
    pub file_name: Seq<char>,
    pub content: Seq<char>,
}

impl View for WriteRequest {
    type V = WriteView;

    open spec fn view(&self) -> WriteView {
        WriteView { file_name: self.file_name@, content: self.content@ }
    }
}

/// The write that stores `device_id` for `user_name`.
pub open spec fn spec_save(user_name: Seq<char>, device_id: Seq<char>) -> WriteView {
    WriteView { file_name: spec_file_name(user_name), content: device_id }
}

/// The write that stores `device_id` as the identity of `user_name`: exactly
/// one file, the user's, with the device id as its whole content.
pub fn save_device_id(user_name: &str, device_id: &str) -> (request: WriteRequest)
    ensures
        request@ == spec_save(user_name@, device_id@),
{
    WriteRequest { file_name: file_name(user_name), content: device_id.to_owned() }
}

/// The files of one storage directory: the text of each file by its name.
pub type Store = Map<Seq<char>, Seq<char>>;

/// The directory after a write: the named file holds the new text, every
/// other file is as it was.
pub open spec fn store_after(store: Store, request: WriteView) -> Store {
    store.insert(request.file_name, request.content)
}

/// What reading the named file from the directory gives.
pub open spec fn store_read(store: Store, file_name: Seq<char>) -> ReadView {
    if store.contains_key(file_name) {
        ReadView::Content(store[file_name])
    } else {
        ReadView::NotFound
    }
}

/// The identity of `user_name` as the directory holds it.
pub open spec fn stored_identity(store: Store, user_name: Seq<char>) -> Result<
    Option<Seq<char>>,
    Seq<char>,
> {
    spec_load(store_read(store, spec_file_name(user_name)))
}

/// Saving a device id and then loading it gives back the id that was saved,
/// whatever the directory held before. The empty text is no device id: it
/// reads back as "no identity".
pub proof fn save_then_load(store: Store, user_name: Seq<char>, device_id: Seq<char>)
    requires
        device_id.len() > 0,
    ensures
        stored_identity(store_after(store, spec_save(user_name, device_id)), user_name) == Ok::<
            Option<Seq<char>>,
            Seq<char>,
        >(Some(device_id)),
{
}

/// Loading from a directory that has no file for the user finds no identity,
/// and is no error.
pub proof fn load_without_file(store: Store, user_name: Seq<char>)
    requires
        !store.contains_key(spec_file_name(user_name)),
    ensures
        stored_identity(store, user_name) == Ok::<Option<Seq<char>>, Seq<char>>(None),
{
}

/// Two users never share a file, so saving the identity of one leaves the
/// stored identity of every other user as it was.
pub proof fn save_keeps_other_users(
    store: Store,
    user_name: Seq<char>,
    device_id: Seq<char>,
    other: Seq<char>,
)
    requires
        other != user_name,
    ensures
        spec_file_name(other) != spec_file_name(user_name),
        stored_identity(store_after(store, spec_save(user_name, device_id)), other)
            == stored_identity(store, other),
{
    let suffix = ".device_id"@;
    if spec_file_name(other) == spec_file_name(user_name) {
        let a = other + suffix;
        let b = user_name + suffix;
        assert(a.len() == other.len() + suffix.len());
        assert(b.len() == user_name.len() + suffix.len());
        assert(other.len() == user_name.len());
        assert forall|i: int| 0 <= i < other.len() implies other[i] == user_name[i] by {
            assert(a[i] == other[i]);
            assert(b[i] == user_name[i]);
        }
        assert(other =~= user_name);
    }
}

} // verus!
