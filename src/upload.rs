use vstd::prelude::*;

use crate::ids::UNIQUE_ID;
use crate::source::spec_read_len;
use crate::text::{decimal, join, owned, same_text, usize_text};

verus! {

/// Chunk size of a client that sets none: 5 MiB.
pub const DEFAULT_CHUNK_SIZE: usize = 5 * 1024 * 1024;

/// Header that states which bytes of the whole a chunk holds.
pub const CONTENT_RANGE_HEADER: &'static str = "content-range";

/// Header that names the object a chunk is appended to.
pub const CONTINUATION_HEADER: &'static str = "x-appwrite-id";

/// Whether a payload goes out in one request or in ordered chunks.
#[derive(Debug, Clone, Copy, PartialEq, Eq, Structural)]
pub enum UploadMode {
    SingleShot,
    Chunked,
}

/// One request for a payload smaller than a chunk; chunks otherwise.
pub open spec fn spec_upload_mode(total_size: nat, chunk_size: nat) -> UploadMode {
    if total_size < chunk_size {
        UploadMode::SingleShot
    } else {
        UploadMode::Chunked
    }
}

/// Chooses how a payload of `total_size` bytes is sent.
pub fn upload_mode(total_size: usize, chunk_size: usize) -> (m: UploadMode)
    ensures
        m == spec_upload_mode(total_size as nat, chunk_size as nat),
{
    if total_size < chunk_size {
        UploadMode::SingleShot
    } else {
        UploadMode::Chunked
    }
}

/// Index of the last byte that a chunk starting at `offset` covers.
pub open spec fn spec_range_end(offset: nat, chunk_len: nat, total_size: nat) -> nat {
    if offset + chunk_len < total_size {
        (offset + chunk_len - 1) as nat
    } else {
        (total_size - 1) as nat
    }
}

/// Value of the content-range header: `bytes {start}-{end}/{total}`.
pub open spec fn range_text(start: nat, end: nat, total_size: nat) -> Seq<char> {
    "bytes "@ + decimal(start) + "-"@ + decimal(end) + "/"@ + decimal(total_size)
}

/// Index of the last byte that a chunk of `chunk_len` bytes starting at `offset` covers,
/// clamped to the last byte of the payload.
pub fn range_end(offset: usize, chunk_len: usize, total_size: usize) -> (r: usize)
    requires
        chunk_len > 0,
        total_size > 0,
    ensures
        r == spec_range_end(offset as nat, chunk_len as nat, total_size as nat),
        r < total_size,
{
    if offset < total_size && chunk_len < total_size - offset {
        offset + chunk_len - 1
    } else {
        total_size - 1
    }
}

/// The content-range value of a chunk of `chunk_len` bytes starting at `offset`.
pub fn range_header(offset: usize, chunk_len: usize, total_size: usize) -> (r: String)
    requires
        chunk_len > 0,
        total_size > 0,
    ensures
        r@ == range_text(
            offset as nat,
            spec_range_end(offset as nat, chunk_len as nat, total_size as nat),
            total_size as nat,
        ),
{
    let end = range_end(offset, chunk_len, total_size);
    let r = owned("bytes ");
    let r = join(r, usize_text(offset).as_str());
    let r = join(r, "-");
    let r = join(r, usize_text(end).as_str());
    let r = join(r, "/");
    let r = join(r, usize_text(total_size).as_str());
    r
}

/// Where a resumed upload starts: after the chunks that the service holds, and never past the
/// end of the payload.
pub open spec fn spec_resume_offset(chunks_stored: nat, chunk_size: nat, total_size: nat) -> nat {
    if chunks_stored * chunk_size < total_size {
        chunks_stored * chunk_size
    } else {
        total_size
    }
}

/// Byte offset at which to resume when the service already holds `chunks_stored` chunks.
pub fn resume_offset(chunks_stored: u64, chunk_size: usize, total_size: usize) -> (r: usize)
    ensures
        r == spec_resume_offset(chunks_stored as nat, chunk_size as nat, total_size as nat),
{
    let k = chunks_stored as u128;
    let c = chunk_size as u128;
    assert(k * c <= 0xffff_ffff_ffff_ffffu128 * 0xffff_ffff_ffff_ffffu128) by (nonlinear_arith)
        requires
            k <= 0xffff_ffff_ffff_ffffu128,
            c <= 0xffff_ffff_ffff_ffffu128,
    ;
    let stored = k * c;
    if stored < total_size as u128 {
        stored as usize
    } else {
        total_size
    }
}

/// Whether an identifier given by the caller names an object whose progress is worth asking
/// for: it is there, and it does not ask for a new object.
pub fn should_probe(upload_id: &Option<String>) -> (r: bool)
    ensures
        r == (match upload_id {
            Some(id) => id@ != UNIQUE_ID@,
            None => false,
        }),
{
    match upload_id {
        Some(id) => !same_text(id.as_str(), UNIQUE_ID),
        None => false,
    }
}

/// A form field as characters.
pub open spec fn field_view(f: (String, String)) -> (Seq<char>, Seq<char>) {
    (f.0@, f.1@)
}

/// Form fields as characters.
pub open spec fn fields_view(fields: Seq<(String, String)>) -> Seq<(Seq<char>, Seq<char>)> {
    fields.map_values(|f: (String, String)| field_view(f))
}

/// An optional text as characters.
pub open spec fn opt_view(o: Option<String>) -> Option<Seq<char>> {
    match o {
        Some(s) => Some(s@),
        None => None,
    }
}

/// A form field as a chunk sends it: the identifier field carries the continuation identifier
/// once there is one.
pub open spec fn chunk_field(
    f: (Seq<char>, Seq<char>),
    id_field: Seq<char>,
    continuation: Option<Seq<char>>,
) -> (Seq<char>, Seq<char>) {
    match continuation {
        Some(id) => if f.0 == id_field {
            (f.0, id)
        } else {
            f
        },
        None => f,
    }
}

/// The form fields of a chunk.
pub open spec fn chunk_form(
    fields: Seq<(Seq<char>, Seq<char>)>,
    id_field: Seq<char>,
    continuation: Option<Seq<char>>,
) -> Seq<(Seq<char>, Seq<char>)> {
    fields.map_values(|f: (Seq<char>, Seq<char>)| chunk_field(f, id_field, continuation))
}

/// Copies `fields` in order, giving the field named `id_field` the value `continuation` where
/// there is one.
pub fn build_chunk_form(
    fields: &Vec<(String, String)>,
    id_field: &str,
    continuation: &Option<String>,
) -> (r: Vec<(String, String)>)
    ensures
        fields_view(r@) == chunk_form(fields_view(fields@), id_field@, opt_view(*continuation)),
{
    let mut r: Vec<(String, String)> = Vec::new();
    let mut i: usize = 0;
    while i < fields.len()
        invariant
            i <= fields@.len(),
            fields_view(r@) == chunk_form(
                fields_view(fields@.subrange(0, i as int)),
                id_field@,
                opt_view(*continuation),
            ),
        decreases fields@.len() - i,
    {
        let key = fields[i].0.clone();
        let value = match continuation {
            Some(id) => if same_text(key.as_str(), id_field) {
                id.clone()
            } else {
                fields[i].1.clone()
            },
            None => fields[i].1.clone(),
        };
        let pair = (key, value);
        let ghost prev = r@;
        let ghost gp = pair;
        assert(field_view(gp) == chunk_field(
            field_view(fields@[i as int]),
            id_field@,
            opt_view(*continuation),
        ));
        r.push(pair);
        proof {
            let prefix = fields@.subrange(0, i as int);
            let done = fields@.subrange(0, i + 1);
            assert(done == prefix.push(fields@[i as int]));
            assert(fields_view(done) =~= fields_view(prefix).push(field_view(fields@[i as int])));
            assert(fields_view(r@) =~= fields_view(prev).push(field_view(gp)));
            assert(chunk_form(fields_view(done), id_field@, opt_view(*continuation)) =~= chunk_form(
                fields_view(prefix),
                id_field@,
                opt_view(*continuation),
            ).push(chunk_field(field_view(fields@[i as int]), id_field@, opt_view(*continuation))));
        }
        i = i + 1;
    }
    assert(fields@.subrange(0, fields@.len() as int) == fields@);
    r
}

/// The chunks, as (start, length), that a chunked upload sends from byte `offset` on: each as
/// long as a chunk or as what is left of the payload, until nothing is left.
pub open spec fn chunk_spans(offset: nat, chunk_size: nat, total_size: nat) -> Seq<(nat, nat)>
    decreases total_size - offset,
{
    if chunk_size == 0 || offset >= total_size {
        Seq::empty()
    } else {
        let n = spec_read_len(offset, total_size, chunk_size);
        seq![(offset, n)] + chunk_spans(offset + n, chunk_size, total_size)
    }
}

/// Total number of bytes that a list of chunks holds.
pub open spec fn span_total(spans: Seq<(nat, nat)>) -> nat
    decreases spans.len(),
{
    if spans.len() == 0 {
        0
    } else {
        spans[0].1 + span_total(spans.drop_first())
    }
}

/// The request that carries one chunk: its content-range value, the continuation identifier
/// for its header (none on the first chunk), and its form fields.
#[derive(Debug)]
pub struct ChunkRequest {
    pub content_range: String,
    pub continuation_id: Option<String>,
    pub form: Vec<(String, String)>,
}

/// The state of one chunked upload: the next byte to send, the chunk size, the payload size,
/// and the identifier that the service returned for the last chunk.
#[derive(Debug)]
pub struct ChunkUpload {
    offset: usize,
    chunk_size: usize,
    total_size: usize,
    continuation_id: Option<String>,
}

impl ChunkUpload {
    /// Chunks are not empty and the next byte is within the payload or just past it.
    pub closed spec fn wf(&self) -> bool {
        0 < self.chunk_size <= self.total_size && self.offset <= self.total_size
    }

    /// The next byte to send.
    pub closed spec fn spec_offset(&self) -> nat {
        self.offset as nat
    }

    /// The largest number of bytes a chunk holds.
    pub closed spec fn spec_chunk_size(&self) -> nat {
        self.chunk_size as nat
    }

    /// The payload size.
    pub closed spec fn spec_total_size(&self) -> nat {
        self.total_size as nat
    }

    /// The identifier that the last chunk's response carried, if a chunk was sent.
    pub closed spec fn spec_continuation(&self) -> Option<Seq<char>> {
        opt_view(self.continuation_id)
    }

    /// The chunks still to send.
    pub open spec fn spec_pending(&self) -> Seq<(nat, nat)> {
        chunk_spans(self.spec_offset(), self.spec_chunk_size(), self.spec_total_size())
    }

    /// Starts a chunked upload of `total_size` bytes. Where a resume probe found
    /// `chunks_stored` chunks on the service, it starts after them, else at byte 0.
    pub fn new(total_size: usize, chunk_size: usize, chunks_stored: Option<u64>) -> (r: ChunkUpload)
        requires
            0 < chunk_size <= total_size,
        ensures
            r.wf(),
            r.spec_chunk_size() == chunk_size,
            r.spec_total_size() == total_size,
            r.spec_offset() == (match chunks_stored {
                Some(k) => spec_resume_offset(k as nat, chunk_size as nat, total_size as nat),
                None => 0,
            }),
            r.spec_continuation() is None,
    {
        let offset = match chunks_stored {
            Some(k) => resume_offset(k, chunk_size, total_size),
            None => 0,
        };
        ChunkUpload { offset, chunk_size, total_size, continuation_id: None }
    }

    /// The next byte to send; the source is positioned there before the first read.
    pub fn offset(&self) -> (r: usize)
        ensures
            r == self.spec_offset(),
    {
        self.offset
    }

    /// The largest number of bytes a chunk holds: the size of the buffer to read into.
    pub fn chunk_size(&self) -> (r: usize)
        ensures
            r == self.spec_chunk_size(),
    {
        self.chunk_size
    }

    /// The identifier that the last chunk's response carried.
    pub fn continuation_id(&self) -> (r: &Option<String>)
        ensures
            opt_view(*r) == self.spec_continuation(),
    {
        &self.continuation_id
    }

    /// The request for the chunk that starts at the current offset: its range runs to the
    /// chunk size or to the end of the payload, it names the object of the previous chunk if
    /// there was one, and its form is `fields` with `id_field` set to that object.
    pub fn chunk_request(&self, fields: &Vec<(String, String)>, id_field: &str) -> (r: ChunkRequest)
        requires
            self.wf(),
        ensures
            r.content_range@ == range_text(
                self.spec_offset(),
                spec_range_end(self.spec_offset(), self.spec_chunk_size(), self.spec_total_size()),
                self.spec_total_size(),
            ),
            opt_view(r.continuation_id) == self.spec_continuation(),
            fields_view(r.form@) == chunk_form(fields_view(fields@), id_field@, self.spec_continuation()),
    {
        let content_range = range_header(self.offset, self.chunk_size, self.total_size);
        let form = build_chunk_form(fields, id_field, &self.continuation_id);
        let continuation_id = match &self.continuation_id {
            Some(id) => Some(id.clone()),
            None => None,
        };
        ChunkRequest { content_range, continuation_id, form }
    }

    /// What follows a read of `read` bytes from the source: nothing where the read was empty
    /// (the upload is over), else the request for the chunk that starts at the current offset.
    pub fn next_request(&self, read: usize, fields: &Vec<(String, String)>, id_field: &str) -> (r:
        Option<ChunkRequest>)
        requires
            self.wf(),
        ensures
            r is None <==> read == 0,
            r matches Some(req) ==> {
                &&& req.content_range@ == range_text(
                    self.spec_offset(),
                    spec_range_end(self.spec_offset(), self.spec_chunk_size(), self.spec_total_size()),
                    self.spec_total_size(),
                )
                &&& opt_view(req.continuation_id) == self.spec_continuation()
                &&& fields_view(req.form@) == chunk_form(
                    fields_view(fields@),
                    id_field@,
                    self.spec_continuation(),
                )
            },
    {
        if read == 0 {
            None
        } else {
            Some(self.chunk_request(fields, id_field))
        }
    }

    /// Records that a chunk of `sent` bytes went out and that its response carried `id`.
    /// When `sent` is what a read at the offset yields, that chunk leaves the pending list.
    pub fn record_sent(&mut self, sent: usize, id: String)
        requires
            old(self).wf(),
            old(self).spec_offset() + sent <= old(self).spec_total_size(),
        ensures
            final(self).wf(),
            final(self).spec_offset() == old(self).spec_offset() + sent,
            final(self).spec_chunk_size() == old(self).spec_chunk_size(),
            final(self).spec_total_size() == old(self).spec_total_size(),
            final(self).spec_continuation() == Some(id@),
            old(self).spec_offset() < old(self).spec_total_size() && sent == spec_read_len(
                old(self).spec_offset(),
                old(self).spec_total_size(),
                old(self).spec_chunk_size(),
            ) ==> final(self).spec_pending() == old(self).spec_pending().drop_first(),
    {
        self.offset = self.offset + sent;
        self.continuation_id = Some(id);
        proof {
            let o = old(self).spec_offset();
            let c = old(self).spec_chunk_size();
            let t = old(self).spec_total_size();
            if o < t && sent == spec_read_len(o, t, c) {
                assert(chunk_spans(o, c, t).drop_first() =~= chunk_spans((o + sent) as nat, c, t));
            }
        }
    }
}

/// Every chunk from `offset` on starts at or after `offset`, is not empty and ends within the
/// payload; all but the first start a whole chunk after `offset`.
proof fn lemma_spans_bounds(offset: nat, chunk_size: nat, total_size: nat)
    requires
        0 < chunk_size,
    ensures
        forall|i: int|
            0 <= i < chunk_spans(offset, chunk_size, total_size).len() ==> {
                let sp = #[trigger] chunk_spans(offset, chunk_size, total_size)[i];
                &&& offset <= sp.0
                &&& 0 < sp.1
                &&& sp.0 + sp.1 <= total_size
                &&& sp.1 == spec_read_len(sp.0, total_size, chunk_size)
                &&& (i > 0 ==> offset + chunk_size <= sp.0)
            },
    decreases total_size - offset,
{
    if offset < total_size {
        let n = spec_read_len(offset, total_size, chunk_size);
        lemma_spans_bounds((offset + n) as nat, chunk_size, total_size);
        let s = chunk_spans(offset, chunk_size, total_size);
        let t = chunk_spans((offset + n) as nat, chunk_size, total_size);
        assert forall|i: int| 0 < i < s.len() implies s[i] == t[i - 1] by {}
        if t.len() > 0 {
            assert(n == chunk_size);
        }
    }
}

/// The chunks of an upload from byte `offset` on hold exactly the bytes from `offset` to the
/// end of the payload.
pub proof fn lemma_spans_cover(offset: nat, chunk_size: nat, total_size: nat)
    requires
        0 < chunk_size,
        offset <= total_size,
    ensures
        span_total(chunk_spans(offset, chunk_size, total_size)) == total_size - offset,
    decreases total_size - offset,
{
    if offset < total_size {
        let n = spec_read_len(offset, total_size, chunk_size);
        lemma_spans_cover((offset + n) as nat, chunk_size, total_size);
        let s = chunk_spans(offset, chunk_size, total_size);
        assert(s.drop_first() =~= chunk_spans((offset + n) as nat, chunk_size, total_size));
    }
}

/// For a payload of `total_size` bytes sent in chunks of `chunk_size` (no larger than the
/// payload), the chunks together hold exactly `total_size` bytes.
pub proof fn lemma_chunks_sum_to_size(total_size: nat, chunk_size: nat)
    requires
        0 < chunk_size <= total_size,
    ensures
        span_total(chunk_spans(0, chunk_size, total_size)) == total_size,
{
    lemma_spans_cover(0, chunk_size, total_size);
}

/// The content-range ends of the chunks of an upload from byte `offset` on strictly increase
/// from chunk to chunk and never pass the last byte of the payload.
pub proof fn lemma_range_ends_increase(offset: nat, chunk_size: nat, total_size: nat)
    requires
        0 < chunk_size,
    ensures
        forall|i: int, j: int|
            0 <= i < j < chunk_spans(offset, chunk_size, total_size).len() ==> spec_range_end(
                #[trigger] chunk_spans(offset, chunk_size, total_size)[i].0,
                chunk_size,
                total_size,
            ) < spec_range_end(
                #[trigger] chunk_spans(offset, chunk_size, total_size)[j].0,
                chunk_size,
                total_size,
            ),
        forall|i: int|
            0 <= i < chunk_spans(offset, chunk_size, total_size).len() ==> spec_range_end(
                #[trigger] chunk_spans(offset, chunk_size, total_size)[i].0,
                chunk_size,
                total_size,
            ) <= total_size - 1,
    decreases total_size - offset,
{
    lemma_spans_bounds(offset, chunk_size, total_size);
    if offset < total_size {
        let n = spec_read_len(offset, total_size, chunk_size);
        lemma_range_ends_increase((offset + n) as nat, chunk_size, total_size);
        lemma_spans_bounds((offset + n) as nat, chunk_size, total_size);
        let s = chunk_spans(offset, chunk_size, total_size);
        let t = chunk_spans((offset + n) as nat, chunk_size, total_size);
        assert forall|i: int| 0 < i < s.len() implies s[i] == t[i - 1] by {}
        assert forall|i: int, j: int| 0 <= i < j < s.len() implies spec_range_end(
            s[i].0,
            chunk_size,
            total_size,
        ) < spec_range_end(s[j].0, chunk_size, total_size) by {
            if i > 0 {
                assert(s[i] == t[i - 1]);
                assert(s[j] == t[j - 1]);
            } else {
                assert(s[j] == t[j - 1]);
                assert(n == chunk_size);
            }
        }
    }
}

/// When the service holds `chunks_stored` chunks, the first chunk of the resumed upload starts
/// at `chunks_stored * chunk_size`, clamped to the payload size; where that is the end, no chunk
/// is left to send.
pub proof fn lemma_resume_starts_after_stored(chunks_stored: nat, chunk_size: nat, total_size: nat)
    requires
        0 < chunk_size <= total_size,
    ensures
        ({
            let spans = chunk_spans(
                spec_resume_offset(chunks_stored, chunk_size, total_size),
                chunk_size,
                total_size,
            );
            &&& chunks_stored * chunk_size < total_size ==> spans.len() > 0 && spans[0].0
                == chunks_stored * chunk_size
            &&& chunks_stored * chunk_size >= total_size ==> spans.len() == 0
        }),
{
}

/// Once a chunk's response has carried `id`, the next chunk's form gives every field named
/// `id_field` the value `id`, in place of the value that the caller supplied.
pub proof fn lemma_continuation_threaded(
    fields: Seq<(Seq<char>, Seq<char>)>,
    id_field: Seq<char>,
    id: Seq<char>,
)
    ensures
        chunk_form(fields, id_field, Some(id)).len() == fields.len(),
        forall|i: int|
            0 <= i < fields.len() && fields[i].0 == id_field ==> #[trigger] chunk_form(
                fields,
                id_field,
                Some(id),
            )[i] == (id_field, id),
        forall|i: int|
            0 <= i < fields.len() && fields[i].0 != id_field ==> #[trigger] chunk_form(
                fields,
                id_field,
                Some(id),
            )[i] == fields[i],
{
}

} // verus!
