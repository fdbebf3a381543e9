use vstd::prelude::*;

use crate::upload::opt_view;

verus! {

/// Name given to a source that has none.
pub const UNKNOWN_NAME: &'static str = "Unknown";

/// Media type given to a source whose type is not known.
pub const OCTET_STREAM: &'static str = "application/octet-stream";

/// How many bytes a read into a buffer of `buf_len` bytes takes from a source of `size` bytes
/// whose cursor stands at `cursor`: as many as fit, and never past the end.
pub open spec fn spec_read_len(cursor: nat, size: nat, buf_len: nat) -> nat {
    if buf_len < size - cursor {
        buf_len
    } else {
        (size - cursor) as nat
    }
}

/// Number of bytes that a read into a buffer of `buf_len` bytes takes, for a source of `size`
/// bytes read up to `cursor`.
pub fn read_len(cursor: usize, size: usize, buf_len: usize) -> (n: usize)
    requires
        cursor <= size,
    ensures
        n == spec_read_len(cursor as nat, size as nat, buf_len as nat),
        n <= buf_len,
        cursor + n <= size,
{
    let left = size - cursor;
    if buf_len < left {
        buf_len
    } else {
        left
    }
}

/// A seekable source of bytes held in memory, with the name and media type under which it is
/// sent.
#[derive(Debug)]
pub struct InputFile {
    name: String,
    mime_type: String,
    data: Vec<u8>,
    cursor: usize,
}

impl InputFile {
    /// The cursor never passes the end of the data.
    pub closed spec fn wf(&self) -> bool {
        self.cursor <= self.data@.len()
    }

    /// The bytes of the source.
    pub closed spec fn spec_data(&self) -> Seq<u8> {
        self.data@
    }

    /// The name under which the bytes are sent.
    pub closed spec fn spec_name(&self) -> Seq<char> {
        self.name@
    }

    /// The media type under which the bytes are sent.
    pub closed spec fn spec_mime_type(&self) -> Seq<char> {
        self.mime_type@
    }

    /// Where the next read starts.
    pub closed spec fn spec_cursor(&self) -> nat {
        self.cursor as nat
    }

    /// A source over `bytes`, named `name` (else a placeholder) and typed `mime_type` (else the
    /// generic binary type), with its cursor at the start.
    pub fn from_bytes(bytes: Vec<u8>, name: Option<String>, mime_type: Option<String>) -> (r: InputFile)
        ensures
            r.wf(),
            r.spec_data() == bytes@,
            r.spec_cursor() == 0,
            r.spec_name() == (match name {
                Some(n) => n@,
                None => UNKNOWN_NAME@,
            }),
            r.spec_mime_type() == (match mime_type {
                Some(m) => m@,
                None => OCTET_STREAM@,
            }),
    {
        let name = match name {
            Some(n) => n,
            None => UNKNOWN_NAME.to_owned(),
        };
        let mime_type = match mime_type {
            Some(m) => m,
            None => OCTET_STREAM.to_owned(),
        };
        InputFile { name, mime_type, data: bytes, cursor: 0 }
    }

    /// The name under which the bytes are sent.
    pub fn name(&self) -> (r: &String)
        ensures
            r@ == self.spec_name(),
    {
        &self.name
    }

    /// The media type under which the bytes are sent.
    pub fn mime_type(&self) -> (r: &String)
        ensures
            r@ == self.spec_mime_type(),
    {
        &self.mime_type
    }

    /// Total number of bytes.
    pub fn size(&self) -> (r: usize)
        ensures
            r == self.spec_data().len(),
    {
        self.data.len()
    }

    /// Where the next read starts.
    pub fn cursor(&self) -> (r: usize)
        ensures
            r == self.spec_cursor(),
    {
        self.cursor
    }

    /// Fills the front of `buf` with the next bytes and moves the cursor past them. Where fewer
    /// bytes are left than `buf` holds, only those are copied and their count is returned; at the
    /// end of the data that count is 0. The rest of `buf` is left as it was.
    pub fn read_exact(&mut self, buf: &mut Vec<u8>) -> (n: usize)
        requires
            old(self).wf(),
        ensures
            final(self).wf(),
            n == spec_read_len(old(self).spec_cursor(), old(self).spec_data().len(), old(buf)@.len()),
            final(self).spec_data() == old(self).spec_data(),
            final(self).spec_cursor() == old(self).spec_cursor() + n,
            final(self).spec_name() == old(self).spec_name(),
            final(self).spec_mime_type() == old(self).spec_mime_type(),
            final(buf)@.len() == old(buf)@.len(),
            final(buf)@.subrange(0, n as int) == old(self).spec_data().subrange(
                old(self).spec_cursor() as int,
                old(self).spec_cursor() + n,
            ),
            final(buf)@.subrange(n as int, old(buf)@.len() as int) == old(buf)@.subrange(
                n as int,
                old(buf)@.len() as int,
            ),
    {
        let size = self.data.len();
        let n = read_len(self.cursor, size, buf.len());
        let start = self.cursor;
        let mut i: usize = 0;
        while i < n
            invariant
                i <= n,
                start + n <= size,
                size == self.data@.len(),
                n <= buf@.len(),
                buf@.len() == old(buf)@.len(),
                forall|j: int| 0 <= j < i ==> buf@[j] == self.data@[start + j],
                forall|j: int| n <= j < buf@.len() ==> buf@[j] == old(buf)@[j],
            decreases n - i,
        {
            buf[i] = self.data[start + i];
            i = i + 1;
        }
        self.cursor = start + n;
        assert(buf@.subrange(0, n as int) =~= self.data@.subrange(start as int, start + n));
        assert(buf@.subrange(n as int, buf@.len() as int) =~= old(buf)@.subrange(
            n as int,
            old(buf)@.len() as int,
        ));
        n
    }

    /// All the bytes of the source, whatever the cursor.
    pub fn into_data(self) -> (r: Vec<u8>)
        ensures
            r@ == self.spec_data(),
    {
        self.data
    }

    /// Moves the cursor to `pos`.
    pub fn seek(&mut self, pos: usize)
        requires
            old(self).wf(),
            pos <= old(self).spec_data().len(),
        ensures
            final(self).wf(),
            final(self).spec_cursor() == pos,
            final(self).spec_data() == old(self).spec_data(),
            final(self).spec_name() == old(self).spec_name(),
            final(self).spec_mime_type() == old(self).spec_mime_type(),
    {
        self.cursor = pos;
    }
}

/// The media type that a path's extension maps to, or the generic binary type.
pub uninterp spec fn guessed_mime(path: Seq<char>) -> Seq<char>;

/// The last component of a path, if it has one.
pub uninterp spec fn path_file_name(path: Seq<char>) -> Option<Seq<char>>;

/// Relies on `mime_guess::from_path(..).first_or_octet_stream()`: the guess depends on the
/// path's extension alone, and the disk is not read.
#[verifier::external_body]
fn guess_mime(path: &str) -> (r: String)
    ensures
        r@ == guessed_mime(path@),
{
    mime_guess::from_path(path).first_or_octet_stream().to_string()
}

/// Relies on `std::path::Path::file_name`: the last component of the path, if any.
#[verifier::external_body]
fn file_name_of(path: &str) -> (r: Option<String>)
    ensures
        opt_view(r) == path_file_name(path@),
{
    match std::path::Path::new(path).file_name() {
        Some(n) => Some(n.to_string_lossy().to_string()),
        None => None,
    }
}

/// The name and media type under which a file at `path` is sent: its last path component
/// (else a placeholder), and the type its extension maps to (else the generic binary type).
pub fn path_name_and_type(path: &str) -> (r: (String, String))
    ensures
        r.0@ == (match path_file_name(path@) {
            Some(n) => n,
            None => UNKNOWN_NAME@,
        }),
        r.1@ == guessed_mime(path@),
{
    let name = match file_name_of(path) {
        Some(n) => n,
        None => UNKNOWN_NAME.to_owned(),
    };
    (name, guess_mime(path))
}

} // verus!
