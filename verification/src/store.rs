//! The decisions of the paste store: where a paste lives, what an uploader is
//! told, whether a fresh identifier may be used, and what a read does.
//!
//! Nothing here touches storage. The caller creates, reads and removes files
//! and reports what happened; these functions say what follows.

use crate::copy::CopyError;
use crate::mpu::MultipartError;
use crate::paste_id::{is_valid_id, PasteID};
use crate::paste_info::PasteInfo;
use vstd::prelude::*;
use vstd::string::*;

verus! {

/// Public address under which pastes are fetched.
pub const HOST: &'static str = "http://localhost:8000";

/// The most bytes one upload may bring.
pub const UPLOAD_MAX_SIZE: u64 = 8388608;

/// Seconds a socket may stay silent before its upload is given up.
pub const SOCKET_TIMEOUT_SECS: u64 = 5;

/// What can go wrong with a request.
#[derive(Debug, Clone, Copy, PartialEq, Eq, Structural)]
pub enum Error {
    /// Storage could not be read, written, created or removed.
    Io,
    /// The record could not be written out.
    Toml,
    /// The stored record is corrupt or malformed.
    TomlDe,
    /// The paste is absent or expired.
    NotFound,
    /// The request ended early or broke the protocol.
    ShortRead,
    /// The upload exceeded the size limit.
    TooLarge,
}

impl Error {
    /// The request error that an abandoned copy amounts to.
    pub open spec fn of_copy(e: CopyError) -> Error {
        match e {
            CopyError::Read => Error::Io,
            CopyError::Write => Error::Io,
            CopyError::TooLarge => Error::TooLarge,
        }
    }

    /// A refused multipart upload is a broken protocol, whatever broke it.
    pub fn from_multipart(e: MultipartError) -> (r: Error)
        ensures
            r == Error::ShortRead,
    {
        Error::ShortRead
    }

    /// Maps the reason a copy was abandoned to a request error.
    pub fn from_copy(e: CopyError) -> (r: Error)
        ensures
            r == Error::of_copy(e),
    {
        match e {
            CopyError::Read => Error::Io,
            CopyError::Write => Error::Io,
            CopyError::TooLarge => Error::TooLarge,
        }
    }
}

/// The container of paste `id`.
pub open spec fn dir_of(id: Seq<char>) -> Seq<char> {
    "upload/"@ + id
}

/// Where the content of paste `id` lies.
pub open spec fn file_of(id: Seq<char>) -> Seq<char> {
    dir_of(id) + "/file"@
}

/// Where the record of paste `id` lies.
pub open spec fn info_of(id: Seq<char>) -> Seq<char> {
    dir_of(id) + "/info"@
}

/// The line an uploader receives: host, slash, identifier, newline.
pub open spec fn url_of(id: Seq<char>) -> Seq<char> {
    "http://localhost:8000"@ + "/"@ + id + "\n"@
}

/// How the attempt to reserve a fresh identifier's container went.
#[derive(Debug, Clone, Copy, PartialEq, Eq, Structural)]
pub enum Reservation {
    /// The container did not exist and has been created.
    Created,
    /// A container of that name exists already.
    AlreadyExists,
    /// Storage failed.
    Failed,
}

/// What follows an attempt to reserve.
#[derive(Debug)]
pub enum NewPaste {
    /// The identifier is ours: content path, record path, and the line for the uploader.
    Ready(String, String, String),
    /// The identifier is taken: draw another.
    TryAnother,
    /// Give up on this request.
    Abort(Error),
}

/// What a read does, once the stored record has been looked up.
#[derive(Debug)]
pub enum ReadPlan {
    /// There is no record: the paste does not exist.
    NotFound,
    /// The record breaks its invariant.
    Corrupt,
    /// The paste has expired: remove its container, then answer not-found.
    Expired,
    /// Serve the content. The record is the one after this read; the flag
    /// says whether it differs from the stored one and must be written first.
    Serve(PasteInfo, bool),
}

impl ReadPlan {
    /// The error a reader gets where the plan serves nothing.
    pub open spec fn refusal_of(self) -> Option<Error> {
        match self {
            ReadPlan::NotFound => Some(Error::NotFound),
            ReadPlan::Corrupt => Some(Error::TomlDe),
            ReadPlan::Expired => Some(Error::NotFound),
            ReadPlan::Serve(_, _) => None,
        }
    }

    /// The error a reader gets where the plan serves nothing: a missing and
    /// an expired paste look the same from outside.
    pub fn refusal(&self) -> (r: Option<Error>)
        ensures
            r == self.refusal_of(),
    {
        match self {
            ReadPlan::NotFound => Some(Error::NotFound),
            ReadPlan::Corrupt => Some(Error::TomlDe),
            ReadPlan::Expired => Some(Error::NotFound),
            ReadPlan::Serve(_, _) => None,
        }
    }
}

/// The store that keeps each paste in a directory of its own.
#[derive(Default)]
pub struct DefaultBackend {}

impl DefaultBackend {
    /// The paths of paste `id`: content, record, container.
    pub fn file_paths(&self, id: &PasteID) -> (paths: (String, String, String))
        ensures
            paths.0@ == file_of(id@),
            paths.1@ == info_of(id@),
            paths.2@ == dir_of(id@),
            is_valid_id(id@),
    {
        let text = id.as_str();
        let dir = String::from_str("upload/").concat(text);
        let file = dir.clone().concat("/file");
        let info = dir.clone().concat("/info");
        (file, info, dir)
    }

    /// Turns a path segment into the identifier to look up. A segment that is
    /// no identifier names no paste: it is answered as not found, and storage
    /// is never asked.
    pub fn lookup(&self, param: &str) -> (r: Result<PasteID, Error>)
        ensures
            is_valid_id(param@) ==> (r matches Ok(id) && id@ == param@),
            !is_valid_id(param@) ==> r == Err::<PasteID, Error>(Error::NotFound),
    {
        match PasteID::from_param(param) {
            Ok(id) => Ok(id),
            Err(_) => Err(Error::NotFound),
        }
    }

    /// The line sent to whoever uploaded paste `id`.
    pub fn url(&self, id: &PasteID) -> (line: String)
        ensures
            line@ == url_of(id@),
    {
        String::from_str(HOST).concat("/").concat(id.as_str()).concat("\n")
    }

    /// Decides what follows the attempt to reserve the container of a freshly
    /// drawn `id`. Only a container that this attempt created is used; a name
    /// that is taken calls for another draw; a storage failure ends the request.
    pub fn new_paste(&self, id: &PasteID, reserved: Reservation) -> (next: NewPaste)
        ensures
            match reserved {
                Reservation::Created => next matches NewPaste::Ready(file, info, url)
                    && file@ == file_of(id@) && info@ == info_of(id@) && url@ == url_of(id@),
                Reservation::AlreadyExists => next is TryAnother,
                Reservation::Failed => next matches NewPaste::Abort(e) && e == Error::Io,
            },
    {
        match reserved {
            Reservation::Created => {
                let paths = self.file_paths(id);
                NewPaste::Ready(paths.0, paths.1, self.url(id))
            },
            Reservation::AlreadyExists => NewPaste::TryAnother,
            Reservation::Failed => NewPaste::Abort(Error::Io),
        }
    }

    /// Decides a read at `now` from what was found stored for the identifier.
    /// A missing record is a missing paste. An expired paste is removed and
    /// not served. Otherwise the read is recorded and the content served.
    pub fn get(&self, stored: Option<PasteInfo>, now: u64) -> (plan: ReadPlan)
        ensures
            match stored {
                None => plan is NotFound,
                Some(info) => if !info.wf() {
                    plan is Corrupt
                } else if info.expired(now) {
                    plan is Expired
                } else {
                    plan matches ReadPlan::Serve(after, write) && after == info.viewed(now)
                        && write == (info.viewed(now) != info)
                },
            },
    {
        match stored {
            None => ReadPlan::NotFound,
            Some(info) => {
                if !info.is_well_formed() {
                    ReadPlan::Corrupt
                } else if info.should_delete(now) {
                    ReadPlan::Expired
                } else {
                    let mut info = info;
                    let write = info.mark_viewed_and_write(now);
                    ReadPlan::Serve(info, write)
                }
            },
        }
    }

    /// A paste limited to one view is served once and is gone at the next read.
    pub proof fn lemma_single_view_then_gone(info: PasteInfo, first: u64, second: u64)
        requires
            info.wf(),
            info.delete_after_num_views == Some(1u32),
            info.num_views == 0,
            !info.expired(first),
        ensures
            info.viewed(first).expired(second),
    {
    }
}

} // verus!
