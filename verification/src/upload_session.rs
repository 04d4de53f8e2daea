//! One multipart upload as the endpoints receive it: the fields that come in,
//! the chunks of the `file` field, and what is owed at the end.
use vstd::prelude::*;

use crate::media_report::MediaProbeErrorResponse;
use crate::upload_flow::{
    UploadFailure, failure_message, failure_status, is_file_field, make_temp_media_path,
    temp_file_name, upload_content_type, upload_error, upload_file_name,
};
use crate::paths::joined_path;

verus! {

/// The sum of the chunk sizes.
pub open spec fn total(chunks: Seq<u64>) -> int
    decreases chunks.len(),
{
    if chunks.len() == 0 {
        0
    } else {
        total(chunks.drop_last()) + chunks.last()
    }
}

/// What to do with a field of the multipart body.
#[derive(Debug, PartialEq)]
pub enum FieldStep {
    /// Not the `file` field: skip it.
    Skip,
    /// The upload: store its chunks at `temp_path`.
    Store { temp_path: String },
}

/// An upload being received.
pub struct UploadSession {
    trace_id: String,
    file_name: Option<String>,
    content_type: Option<String>,
    temp_path: Option<String>,
    stored_bytes: u64,
    chunk_count: u64,
    chunks: Ghost<Seq<u64>>,
}

/// The upload as plain values: the stored file's name, type and place once
/// the `file` field came, and the sizes of its chunks so far.
pub struct SessionModel {
    pub trace_id: Seq<char>,
    pub file_name: Option<Seq<char>>,
    pub content_type: Option<Seq<char>>,
    pub temp_path: Option<Seq<char>>,
    pub stored_bytes: u64,
    pub chunk_count: u64,
    pub chunks: Seq<u64>,
}

/// An optional text taken by its view.
pub open spec fn opt_seq(o: Option<String>) -> Option<Seq<char>> {
    match o {
        Some(s) => Some(s@),
        None => None,
    }
}

impl View for UploadSession {
    type V = SessionModel;

    closed spec fn view(&self) -> SessionModel {
        SessionModel {
            trace_id: self.trace_id@,
            file_name: opt_seq(self.file_name),
            content_type: opt_seq(self.content_type),
            temp_path: opt_seq(self.temp_path),
            stored_bytes: self.stored_bytes,
            chunk_count: self.chunk_count,
            chunks: self.chunks@,
        }
    }
}

/// The stored size is the sum of the chunks received, and each chunk counted.
pub open spec fn consistent(m: SessionModel) -> bool {
    &&& m.stored_bytes == total(m.chunks)
    &&& m.chunk_count == m.chunks.len()
    &&& m.temp_path is None ==> m.chunks.len() == 0
}

impl UploadSession {
    /// A fresh upload under `trace_id`, with no field yet.
    pub fn new(trace_id: &str) -> (s: UploadSession)
        ensures
            s@.trace_id == trace_id@,
            s@.file_name is None,
            s@.content_type is None,
            s@.temp_path is None,
            s@.chunks.len() == 0,
            consistent(s@),
    {
        UploadSession {
            trace_id: trace_id.to_string(),
            file_name: None,
            content_type: None,
            temp_path: None,
            stored_bytes: 0,
            chunk_count: 0,
            chunks: Ghost(Seq::empty()),
        }
    }

    /// The size received so far.
    pub fn stored_bytes(&self) -> (n: u64)
        ensures
            n == self@.stored_bytes,
    {
        self.stored_bytes
    }

    /// The number of chunks received so far.
    pub fn chunk_count(&self) -> (n: u64)
        ensures
            n == self@.chunk_count,
    {
        self.chunk_count
    }

    /// The name of the uploaded file, once its field came.
    pub fn file_name(&self) -> (r: Option<String>)
        ensures
            opt_seq(r) == self@.file_name,
    {
        match &self.file_name {
            Some(n) => Some(n.clone()),
            None => None,
        }
    }

    /// A field starts. Only the first `file` field is the upload: its name
    /// (`upload.bin` when it has none) and type are kept and it is stored in
    /// `temp_dir` under a name made by `make_temp_media_path` (in `upload_flow`); any other
    /// field is skipped.
    pub fn field(
        &mut self,
        name: &Option<String>,
        file_name: Option<String>,
        content_type: Option<String>,
        temp_dir: &str,
        prefix: &str,
    ) -> (step: FieldStep)
        requires
            old(self)@.temp_path is None,
            consistent(old(self)@),
        ensures
            consistent(final(self)@),
            match name {
                Some(n) if n@ == "file"@ => {
                    let stored_name = match file_name {
                        Some(f) => if f@.len() > 0 {
                            f@
                        } else {
                            "upload.bin"@
                        },
                        None => "upload.bin"@,
                    };
                    let path = joined_path(
                        temp_dir@,
                        temp_file_name(prefix@, stored_name, old(self)@.trace_id),
                    );
                    &&& step matches FieldStep::Store { temp_path } && temp_path@ == path
                    &&& final(self)@ == SessionModel {
                        file_name: Some(stored_name),
                        content_type: Some(
                            match content_type {
                                Some(c) => c@,
                                None => "application/octet-stream"@,
                            },
                        ),
                        temp_path: Some(path),
                        ..old(self)@
                    }
                },
                _ => step == FieldStep::Skip && final(self)@ == old(self)@,
            },
    {
        if !is_file_field(name) {
            return FieldStep::Skip;
        }
        let stored_name = upload_file_name(file_name);
        let kind = upload_content_type(content_type);
        let path = make_temp_media_path(temp_dir, prefix, stored_name.as_str(), self.trace_id.as_str());
        let step_path = path.clone();
        self.file_name = Some(stored_name);
        self.content_type = Some(kind);
        self.temp_path = Some(path);
        FieldStep::Store { temp_path: step_path }
    }

    /// A chunk of the upload was written: its size is added and counted.
    pub fn chunk(&mut self, len: u64)
        requires
            old(self)@.temp_path is Some,
            consistent(old(self)@),
            old(self)@.stored_bytes + len <= u64::MAX,
            old(self)@.chunk_count < u64::MAX,
        ensures
            consistent(final(self)@),
            final(self)@ == (SessionModel {
                stored_bytes: (old(self)@.stored_bytes + len) as u64,
                chunk_count: (old(self)@.chunk_count + 1) as u64,
                chunks: old(self)@.chunks.push(len),
                ..old(self)@
            }),
    {
        self.stored_bytes = self.stored_bytes + len;
        self.chunk_count = self.chunk_count + 1;
        proof {
            let before = self.chunks@;
            self.chunks = Ghost(before.push(len));
            assert(self.chunks@.drop_last() =~= before);
        }
    }

    /// The body ended. With a stored upload that has bytes, the upload goes on
    /// to ffprobe; an empty one, or a body without a `file` field, is refused.
    pub fn finish(&self, background: bool) -> (r: Result<(), (u16, MediaProbeErrorResponse)>)
        ensures
            match self@.temp_path {
                None => r matches Err(e) && e.0 == failure_status(UploadFailure::MissingFileField)
                    && e.1.trace_id@ == self@.trace_id && e.1.message@ == failure_message(
                    UploadFailure::MissingFileField,
                    background,
                ),
                Some(_) => if self@.stored_bytes == 0 {
                    r matches Err(e) && e.0 == 400 && e.1.trace_id@ == self@.trace_id
                        && e.1.message@ == "uploaded file is empty"@
                } else {
                    r is Ok
                },
            },
    {
        match &self.temp_path {
            None => Err(upload_error(self.trace_id.as_str(), UploadFailure::MissingFileField, background)),
            Some(_) => if self.stored_bytes == 0 {
                Err(upload_error(self.trace_id.as_str(), UploadFailure::EmptyUpload, background))
            } else {
                Ok(())
            },
        }
    }
}

/// The size an upload is recorded with is the sum of the sizes of its chunks,
/// whatever the order in which it was received.
pub proof fn lemma_size_is_sum(m: SessionModel)
    requires
        consistent(m),
    ensures
        m.stored_bytes == total(m.chunks),
        m.stored_bytes == 0 <==> forall|i: int| 0 <= i < m.chunks.len() ==> m.chunks[i] == 0,
    decreases m.chunks.len(),
{
    lemma_total_zero(m.chunks);
}

proof fn lemma_total_zero(c: Seq<u64>)
    ensures
        total(c) >= 0,
        total(c) == 0 <==> forall|i: int| 0 <= i < c.len() ==> c[i] == 0,
    decreases c.len(),
{
    if c.len() > 0 {
        lemma_total_zero(c.drop_last());
        if total(c) == 0 {
            assert forall|i: int| 0 <= i < c.len() implies c[i] == 0 by {
                if i < c.len() - 1 {
                    assert(c.drop_last()[i] == c[i]);
                }
            }
        }
        if forall|i: int| 0 <= i < c.len() ==> c[i] == 0 {
            assert forall|i: int| 0 <= i < c.drop_last().len() implies c.drop_last()[i] == 0 by {
                assert(c.drop_last()[i] == c[i]);
            }
        }
    }
}

} // verus!
