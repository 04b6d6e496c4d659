//! Multipart uploads: finding the boundary in a content type, reading the
//! parts of a body, and picking the one part an upload may carry.

use multipart::server::Multipart;
use std::io::Cursor;
use std::io::Read;
use vstd::prelude::*;
use vstd::string::*;

verus! {

/// `marker` stands in `text` at position `i`.
pub open spec fn occurs_at(text: Seq<char>, marker: Seq<char>, i: int) -> bool {
    0 <= i && i + marker.len() <= text.len() && text.subrange(i, i + marker.len()) == marker
}

/// `i` is the first position at which `marker` stands in `text`.
pub open spec fn first_at(text: Seq<char>, marker: Seq<char>, i: int) -> bool {
    occurs_at(text, marker, i) && forall|j: int| 0 <= j < i ==> !occurs_at(text, marker, j)
}

/// What follows the first occurrence of `marker` in `text`, if there is one.
pub open spec fn text_after(text: Seq<char>, marker: Seq<char>) -> Option<Seq<char>> {
    if exists|i: int| first_at(text, marker, i) {
        let i = choose|i: int| first_at(text, marker, i);
        Some(text.subrange(i + marker.len(), text.len() as int))
    } else {
        None
    }
}

/// The boundary that a content type announces: whatever follows the first
/// `boundary=` in it.
pub open spec fn boundary_in(content_type: Seq<char>) -> Option<Seq<char>> {
    text_after(content_type, "boundary="@)
}

proof fn lemma_first_is_unique(text: Seq<char>, marker: Seq<char>, i: int, k: int)
    requires
        first_at(text, marker, i),
        first_at(text, marker, k),
    ensures
        i == k,
{
    if i < k {
        assert(!occurs_at(text, marker, i));
    } else if k < i {
        assert(!occurs_at(text, marker, k));
    }
}

fn char_at(s: &str, i: usize, ascii: bool) -> (c: char)
    requires
        i < s@.len(),
        ascii ==> is_ascii(s),
    ensures
        c == s@[i as int],
{
    if ascii {
        let b: u8 = s.get_ascii(i);
        assert(s@[i as int] as u8 == b);
        assert('\0' <= s@[i as int] <= '\u{7f}');
        b as char
    } else {
        s.get_char(i)
    }
}

/// Whether `marker` stands in `text` at `i`.
fn matches_at(
    text: &str,
    text_ascii: bool,
    marker: &str,
    marker_ascii: bool,
    i: usize,
    m: usize,
) -> (hit: bool)
    requires
        m == marker@.len(),
        i + m <= text@.len() <= usize::MAX,
        text_ascii ==> is_ascii(text),
        marker_ascii ==> is_ascii(marker),
    ensures
        hit == occurs_at(text@, marker@, i as int),
{
    let mut k: usize = 0;
    while k < m
        invariant
            k <= m,
            m == marker@.len(),
            i + m <= text@.len() <= usize::MAX,
            text_ascii ==> is_ascii(text),
            marker_ascii ==> is_ascii(marker),
            forall|j: int| 0 <= j < k ==> text@[i + j] == marker@[j],
        decreases m - k,
    {
        if char_at(text, i + k, text_ascii) != char_at(marker, k, marker_ascii) {
            assert(text@.subrange(i as int, i + m)[k as int] != marker@[k as int]);
            return false;
        }
        k = k + 1;
    }
    assert(text@.subrange(i as int, i + m) =~= marker@);
    true
}

/// The rest of `text` after the first occurrence of `marker`.
pub fn find_after<'a>(text: &'a str, marker: &str) -> (rest: Option<&'a str>)
    ensures
        rest is Some == text_after(text@, marker@) is Some,
        rest is Some ==> rest.unwrap()@ == text_after(text@, marker@).unwrap(),
{
    let text_ascii = text.is_ascii();
    let marker_ascii = marker.is_ascii();
    let n: usize = text.unicode_len();
    let m: usize = marker.unicode_len();
    if m > n {
        assert forall|i: int| !first_at(text@, marker@, i) by {}
        return None;
    }
    let last: usize = n - m;
    let mut i: usize = 0;
    let mut searching = true;
    while searching
        invariant
            n == text@.len(),
            m == marker@.len(),
            last == n - m,
            i <= last,
            text_ascii ==> is_ascii(text),
            marker_ascii ==> is_ascii(marker),
            forall|j: int| 0 <= j < i ==> !occurs_at(text@, marker@, j),
            !searching ==> !occurs_at(text@, marker@, i as int),
            !searching ==> i == last,
        decreases last - i + (if searching { 1int } else { 0int }),
    {
        if matches_at(text, text_ascii, marker, marker_ascii, i, m) {
            proof {
                assert(first_at(text@, marker@, i as int));
                let w = choose|w: int| first_at(text@, marker@, w);
                lemma_first_is_unique(text@, marker@, i as int, w);
            }
            return Some(text.substring_char(i + m, n));
        }
        if i == last {
            searching = false;
        } else {
            i = i + 1;
        }
    }
    assert forall|w: int| !first_at(text@, marker@, w) by {
        if occurs_at(text@, marker@, w) {
            assert(w <= last);
        }
    }
    None
}

/// The boundary announced by a content type, if it announces one.
pub fn boundary_of<'a>(content_type: &'a str) -> (boundary: Option<&'a str>)
    ensures
        boundary is Some == boundary_in(content_type@) is Some,
        boundary is Some ==> boundary.unwrap()@ == boundary_in(content_type@).unwrap(),
{
    find_after(content_type, "boundary=")
}

/// `std::io::Cursor`, carried through as it is.
#[verifier::external_type_specification]
#[verifier::external_body]
#[verifier::reject_recursive_types(T)]
pub struct ExCursor<T>(Cursor<T>);

/// `multipart::server::Multipart`, the reader of a multipart body.
#[verifier::external_type_specification]
#[verifier::external_body]
#[verifier::reject_recursive_types(R)]
pub struct ExMultipart<R>(Multipart<R>);

/// The fields, each with its name and data, that a reader made by
/// `Multipart::with_body` over these bytes and this boundary yields until it
/// ends or fails.
pub uninterp spec fn multipart_fields(body: Seq<u8>, boundary: Seq<char>) -> Seq<
    (Seq<char>, Seq<u8>),
>;

/// Whether that reader, after those fields, ends rather than fails.
pub uninterp spec fn multipart_is_whole(body: Seq<u8>, boundary: Seq<char>) -> bool;

/// The fields that `reader` has yet to yield before it ends or fails.
pub uninterp spec fn fields_ahead(reader: Multipart<Cursor<Vec<u8>>>) -> Seq<
    (Seq<char>, Seq<u8>),
>;

/// Whether `reader`, after the fields ahead, ends rather than fails.
pub uninterp spec fn ends_whole(reader: Multipart<Cursor<Vec<u8>>>) -> bool;

/// One part of a multipart body.
#[derive(Debug)]
pub struct Part {
    /// The field name from the part's headers.
    pub name: String,
    /// The part's content.
    pub data: Vec<u8>,
}

/// What one step of reading a body produced.
pub enum PartRead {
    /// The next part.
    Part(Part),
    /// The closing boundary: the body is complete.
    End,
    /// The body is malformed or could not be read.
    Failed,
}

/// Why a multipart upload was refused.
#[derive(Debug, Clone, Copy, PartialEq, Eq, Structural)]
pub enum MultipartError {
    /// There is no content type, or it announces no boundary.
    NoBoundary,
    /// A part has a name other than `file`.
    UnknownPart,
    /// The body is malformed.
    Malformed,
    /// The body holds no part at all.
    MissingFile,
}

/// Calls `Multipart::with_body` on a `std::io::Cursor` over `body`. The
/// reader reads from those bytes and that boundary and from nothing else, so
/// what it will yield is named after them.
#[verifier::external_body]
fn open_body(body: Vec<u8>, boundary: &str) -> (reader: Multipart<Cursor<Vec<u8>>>)
    ensures
        fields_ahead(reader) == multipart_fields(body@, boundary@),
        ends_whole(reader) == multipart_is_whole(body@, boundary@),
{
    Multipart::with_body(Cursor::new(body), boundary)
}

/// Calls `Multipart::read_entry` once and, where it yields a field, copies
/// the field's name and reads its data to the end. A field that comes out is
/// the first of those ahead, and the rest stay ahead. `End` is the reader's
/// `Ok(None)`; `Failed` is an error from it or from reading the data; after
/// either, no field is ahead.
#[verifier::external_body]
fn next_part(reader: &mut Multipart<Cursor<Vec<u8>>>) -> (r: PartRead)
    ensures
        match r {
            PartRead::Part(p) => fields_ahead(*old(reader)) == seq![(p.name@, p.data@)]
                + fields_ahead(*final(reader)) && ends_whole(*final(reader)) == ends_whole(
                *old(reader),
            ),
            PartRead::End => fields_ahead(*old(reader)).len() == 0 && ends_whole(*old(reader)),
            PartRead::Failed => fields_ahead(*old(reader)).len() == 0 && !ends_whole(
                *old(reader),
            ),
        },
{
    match reader.read_entry() {
        Ok(Some(mut entry)) => {
            let mut data = Vec::new();
            match entry.data.read_to_end(&mut data) {
                Ok(_) => PartRead::Part(Part { name: entry.headers.name.to_string(), data }),
                Err(_) => PartRead::Failed,
            }
        },
        Ok(None) => PartRead::End,
        Err(_) => PartRead::Failed,
    }
}

/// Name and data of each part, as plain sequences.
pub open spec fn part_views(parts: Seq<Part>) -> Seq<(Seq<char>, Seq<u8>)> {
    parts.map_values(|p: Part| (p.name@, p.data@))
}

/// The content an upload carries, given the parts read from its body and
/// whether the body was complete. Every part must be named `file`; the last
/// one counts. A part of another name is refused even in a malformed body.
pub open spec fn select_file(parts: Seq<(Seq<char>, Seq<u8>)>, whole: bool) -> Result<
    Seq<u8>,
    MultipartError,
> {
    if exists|i: int| 0 <= i < parts.len() && (#[trigger] parts[i]).0 != "file"@ {
        Err(MultipartError::UnknownPart)
    } else if !whole {
        Err(MultipartError::Malformed)
    } else if parts.len() == 0 {
        Err(MultipartError::MissingFile)
    } else {
        Ok(parts.last().1)
    }
}

/// What a multipart request yields. Without a content type, or with one that
/// announces no boundary, it is refused; otherwise the content is selected
/// from the fields that the body holds under that boundary.
pub open spec fn upload_of(content_type: Option<Seq<char>>, body: Seq<u8>) -> Result<
    Seq<u8>,
    MultipartError,
> {
    match content_type {
        None => Err(MultipartError::NoBoundary),
        Some(ct) => match boundary_in(ct) {
            None => Err(MultipartError::NoBoundary),
            Some(b) => select_file(multipart_fields(body, b), multipart_is_whole(body, b)),
        },
    }
}

/// The one file of a multipart upload.
#[derive(Debug)]
pub struct MultipartUpload {
    file: Vec<u8>,
}

impl View for MultipartUpload {
    type V = Seq<u8>;

    closed spec fn view(&self) -> Seq<u8> {
        self.file@
    }
}

impl MultipartUpload {
    /// The uploaded bytes.
    pub fn file(&self) -> (bytes: &Vec<u8>)
        ensures
            bytes@ == self@,
    {
        &self.file
    }

    /// Picks the upload's content from the parts read from its body; `whole`
    /// tells whether the body was read to its closing boundary.
    pub fn from_parts(parts: Vec<Part>, whole: bool) -> (r: Result<MultipartUpload, MultipartError>)
        ensures
            match select_file(part_views(parts@), whole) {
                Ok(bytes) => r matches Ok(u) && u@ == bytes,
                Err(e) => r matches Err(f) && f == e,
            },
    {
        let ghost views = part_views(parts@);
        let wanted = String::from_str("file");
        let mut i: usize = 0;
        while i < parts.len()
            invariant
                i <= parts.len(),
                views == part_views(parts@),
                wanted@ == "file"@,
                forall|j: int| 0 <= j < i ==> (#[trigger] views[j]).0 == "file"@,
            decreases parts.len() - i,
        {
            assert(views[i as int].0 == parts@[i as int].name@);
            let named_file = parts[i].name == wanted;
            if !named_file {
                return Err(MultipartError::UnknownPart);
            }
            i = i + 1;
        }
        if !whole {
            return Err(MultipartError::Malformed);
        }
        let mut rest = parts;
        match rest.pop() {
            None => Err(MultipartError::MissingFile),
            Some(last) => {
                assert(views.last() == (last.name@, last.data@));
                Ok(MultipartUpload { file: last.data })
            },
        }
    }

    /// Reads the parts of `body` under the boundary that `content_type`
    /// announces and picks the upload's content from them.
    pub fn from_data(content_type: Option<&str>, body: Vec<u8>) -> (r: Result<
        MultipartUpload,
        MultipartError,
    >)
        ensures
            match upload_of(
                match content_type {
                    Some(ct) => Some(ct@),
                    None => None,
                },
                body@,
            ) {
                Ok(bytes) => r matches Ok(u) && u@ == bytes,
                Err(e) => r matches Err(f) && f == e,
            },
    {
        let boundary = match content_type {
            Some(ct) => match boundary_of(ct) {
                Some(b) => b,
                None => {
                    return Err(MultipartError::NoBoundary);
                },
            },
            None => {
                return Err(MultipartError::NoBoundary);
            },
        };
        let ghost all = multipart_fields(body@, boundary@);
        let ghost all_whole = multipart_is_whole(body@, boundary@);
        let mut reader = open_body(body, boundary);
        let mut parts: Vec<Part> = Vec::new();
        let mut whole = false;
        let mut reading = true;
        assert(part_views(parts@) + fields_ahead(reader) == all);
        while reading
            invariant
                reading ==> part_views(parts@) + fields_ahead(reader) == all,
                reading ==> ends_whole(reader) == all_whole,
                reading ==> !whole,
                !reading ==> part_views(parts@) == all && whole == all_whole,
            decreases
                    if reading {
                        fields_ahead(reader).len() + 1
                    } else {
                        0
                    },
        {
            let ghost ahead = fields_ahead(reader);
            let ghost seen = parts@;
            match next_part(&mut reader) {
                PartRead::Part(p) => {
                    let ghost view = (p.name@, p.data@);
                    parts.push(p);
                    assert(part_views(parts@) == part_views(seen) + seq![view]);
                    assert(part_views(seen) + (seq![view] + fields_ahead(reader)) == part_views(
                        seen,
                    ) + seq![view] + fields_ahead(reader));
                    assert(ahead.len() == fields_ahead(reader).len() + 1);
                },
                PartRead::End => {
                    assert(part_views(seen) + ahead == part_views(seen));
                    whole = true;
                    reading = false;
                },
                PartRead::Failed => {
                    assert(part_views(seen) + ahead == part_views(seen));
                    reading = false;
                },
            }
        }
        MultipartUpload::from_parts(parts, whole)
    }
}

} // verus!
