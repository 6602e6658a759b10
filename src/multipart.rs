use vstd::prelude::*;

use crate::error::{Error, ErrorKind};

verus! {

/// One uploaded part: its number, its size and the tag the backend gave it.
#[derive(Debug)]
pub struct MultipartUploadPart {
    pub part_number: u64,
    pub size: u64,
    pub etag: String,
}

/// The next exchange with the backend that a multipart upload needs.
#[derive(Debug)]
pub enum MultipartStep {
    /// Start an upload session; its identifier goes to `on_initiated`.
    Initiate,
    /// Upload `size` bytes as part `part_number`; the tag goes to `on_part_uploaded`.
    UploadPart { upload_id: String, part_number: u64, size: u64 },
    /// Finish the session with these parts, in this order.
    Complete { upload_id: String, parts: Vec<MultipartUploadPart> },
    /// Cancel the session; success goes to `on_aborted`.
    AbortUpload { upload_id: String },
    /// Nothing to do.
    Done,
}

/// A multipart upload: the session is started lazily by the first write,
/// each write becomes the next part, and `close` completes the session with
/// the parts in the order they were uploaded.
pub struct MultipartUploadWriter {
    upload_id: Option<String>,
    parts: Vec<MultipartUploadPart>,
}

impl MultipartUploadWriter {
    pub closed spec fn spec_upload_id(&self) -> Option<String> {
        self.upload_id
    }

    /// The parts uploaded so far, in upload order.
    pub closed spec fn spec_parts(&self) -> Seq<MultipartUploadPart> {
        self.parts@
    }

    /// Parts are numbered from one in upload order, and exist only within a session.
    pub open spec fn wf(&self) -> bool {
        &&& self.spec_parts().len() < u64::MAX
        &&& self.spec_upload_id().is_none() ==> self.spec_parts().len() == 0
        &&& forall|i: int| 0 <= i < self.spec_parts().len()
            ==> (#[trigger] self.spec_parts()[i]).part_number == i + 1
    }

    pub fn new() -> (r: MultipartUploadWriter)
        ensures
            r.wf(),
            r.spec_upload_id().is_none(),
            r.spec_parts().len() == 0,
    {
        MultipartUploadWriter { upload_id: None, parts: Vec::new() }
    }

    pub fn upload_id(&self) -> (r: Option<&str>)
        ensures
            r.is_some() == self.spec_upload_id().is_some(),
            r.is_some() ==> r.unwrap()@ == self.spec_upload_id().unwrap()@,
    {
        match &self.upload_id {
            Some(s) => Some(s.as_str()),
            None => None,
        }
    }

    pub fn parts(&self) -> (r: &[MultipartUploadPart])
        ensures
            r@ == self.spec_parts(),
    {
        self.parts.as_slice()
    }

    /// The step that writes `size` bytes: start the session first if there
    /// is none, else upload the bytes as the next part.
    pub fn write(&self, size: u64) -> (r: MultipartStep)
        requires
            self.wf(),
        ensures
            self.spec_upload_id().is_none() ==> r == MultipartStep::Initiate,
            self.spec_upload_id().is_some() ==> r == (MultipartStep::UploadPart {
                upload_id: self.spec_upload_id().unwrap(),
                part_number: (self.spec_parts().len() + 1) as u64,
                size,
            }),
    {
        match &self.upload_id {
            None => MultipartStep::Initiate,
            Some(id) => MultipartStep::UploadPart {
                upload_id: id.clone(),
                part_number: self.parts.len() as u64 + 1,
                size,
            },
        }
    }

    /// The step that writes a stream of `size` bytes: the same as `write`.
    pub fn sink(&self, size: u64) -> (r: MultipartStep)
        requires
            self.wf(),
        ensures
            self.spec_upload_id().is_none() ==> r == MultipartStep::Initiate,
            self.spec_upload_id().is_some() ==> r == (MultipartStep::UploadPart {
                upload_id: self.spec_upload_id().unwrap(),
                part_number: (self.spec_parts().len() + 1) as u64,
                size,
            }),
    {
        self.write(size)
    }

    /// Records the session the backend started; a session already open is kept.
    pub fn on_initiated(&mut self, upload_id: String)
        requires
            old(self).wf(),
        ensures
            final(self).wf(),
            final(self).spec_parts() == old(self).spec_parts(),
            old(self).spec_upload_id().is_none() ==> final(self).spec_upload_id() == Some(upload_id),
            old(self).spec_upload_id().is_some() ==> final(self).spec_upload_id() == old(self).spec_upload_id(),
    {
        if self.upload_id.is_none() {
            self.upload_id = Some(upload_id);
        }
    }

    /// Records that the next part, of `size` bytes, was accepted with `etag`.
    /// The part count moves only here, on a confirmed upload.
    pub fn on_part_uploaded(&mut self, size: u64, etag: String) -> (r: Result<(), Error>)
        requires
            old(self).wf(),
        ensures
            final(self).wf(),
            final(self).spec_upload_id() == old(self).spec_upload_id(),
            r.is_ok() == (old(self).spec_upload_id().is_some() && old(self).spec_parts().len() + 1 < u64::MAX),
            r.is_ok() ==> final(self).spec_parts() == old(self).spec_parts().push(MultipartUploadPart {
                part_number: (old(self).spec_parts().len() + 1) as u64,
                size,
                etag,
            }),
            r.is_err() ==> final(self).spec_parts() == old(self).spec_parts()
                && r.unwrap_err().kind == ErrorKind::Unexpected,
    {
        if self.upload_id.is_none() {
            return Err(Error::new(ErrorKind::Unexpected, "no upload session to add a part to"));
        }
        if self.parts.len() as u64 >= u64::MAX - 1 {
            return Err(Error::new(ErrorKind::Unexpected, "too many parts"));
        }
        let part_number = self.parts.len() as u64 + 1;
        self.parts.push(MultipartUploadPart { part_number, size, etag });
        Ok(())
    }

    /// The step that finishes the upload: complete the session with every
    /// part, in upload order. Without a session one is started first; an
    /// upload with no parts is not refused here but left to the backend.
    pub fn close(&self) -> (r: MultipartStep)
        requires
            self.wf(),
        ensures
            self.spec_upload_id().is_none() ==> r == MultipartStep::Initiate,
            self.spec_upload_id().is_some() ==> (r matches MultipartStep::Complete { upload_id, parts }
                && upload_id == self.spec_upload_id().unwrap()
                && parts@ == self.spec_parts()),
    {
        match &self.upload_id {
            None => MultipartStep::Initiate,
            Some(id) => {
                let mut parts: Vec<MultipartUploadPart> = Vec::new();
                let mut i: usize = 0;
                while i < self.parts.len()
                    invariant
                        i <= self.parts.len(),
                        parts@ == self.parts@.take(i as int),
                    decreases self.parts.len() - i,
                {
                    let p = &self.parts[i];
                    parts.push(MultipartUploadPart { part_number: p.part_number, size: p.size, etag: p.etag.clone() });
                    assert(parts@ =~= self.parts@.take(i + 1));
                    i = i + 1;
                }
                assert(parts@ =~= self.parts@);
                MultipartStep::Complete { upload_id: id.clone(), parts }
            }
        }
    }

    /// The step that cancels the upload: abort the session if one was
    /// started, and nothing at all otherwise.
    pub fn abort(&self) -> (r: MultipartStep)
        requires
            self.wf(),
        ensures
            self.spec_upload_id().is_none() ==> r == MultipartStep::Done,
            self.spec_upload_id().is_some() ==> r == (MultipartStep::AbortUpload {
                upload_id: self.spec_upload_id().unwrap(),
            }),
    {
        match &self.upload_id {
            None => MultipartStep::Done,
            Some(id) => MultipartStep::AbortUpload { upload_id: id.clone() },
        }
    }

    /// Forgets the session once the backend has aborted it.
    pub fn on_aborted(&mut self)
        requires
            old(self).wf(),
        ensures
            final(self).wf(),
            final(self).spec_upload_id().is_none(),
            final(self).spec_parts().len() == 0,
    {
        self.upload_id = None;
        self.parts = Vec::new();
    }
}

/// The parts a well-formed upload completes with are numbered one, two,
/// and so on, in the order they were uploaded: their numbers strictly increase.
pub proof fn lemma_parts_in_order(w: MultipartUploadWriter)
    requires
        w.wf(),
    ensures
        forall|i: int, j: int| 0 <= i < j < w.spec_parts().len()
            ==> (#[trigger] w.spec_parts()[i]).part_number < (#[trigger] w.spec_parts()[j]).part_number,
{
}

} // verus!
