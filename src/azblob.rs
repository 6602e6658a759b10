use vstd::prelude::*;

use crate::error::{Error, ErrorKind};
use crate::header::{append_blob_tag, decimal_u64, is_append_blob, parse_decimal_u64};
use crate::op::OpWrite;

verus! {

pub const STATUS_OK: u16 = 200;
pub const STATUS_CREATED: u16 = 201;
pub const STATUS_NOT_FOUND: u16 = 404;

/// The next exchange with the blob service that a write needs.
#[derive(Debug, PartialEq, Eq, Structural)]
pub enum AzblobStep {
    /// Upload the whole body of `size` bytes in one request.
    PutBlob { size: u64 },
    /// Ask for the blob's properties, to learn whether it can be appended to.
    GetProperties,
    /// Create an empty appendable blob.
    CreateAppendBlob,
    /// Append `size` bytes; `position`, when known, is the offset the
    /// blob is expected to be at.
    AppendBlock { size: u64, position: Option<u64> },
    /// Turn the last response into an error through the service's error mapping.
    ReadError,
    /// The write is accepted; nothing is left to do.
    Done,
}

/// Writes to one blob, either in a single upload or by appending.
///
/// Each `write` or `sink` starts with the step that `write` returns; the
/// caller performs it and hands the response to the matching `on_*` method,
/// which returns the next step, until `Done`, `ReadError` or an error.
pub struct AzblobWriter {
    op: OpWrite,
    path: String,
    position: Option<u64>,
}

pub open spec fn slice_view(o: Option<&[u8]>) -> Option<Seq<u8>> {
    match o {
        Some(b) => Some(b@),
        None => None,
    }
}

pub open spec fn step_kind(r: Result<AzblobStep, Error>) -> Result<AzblobStep, ErrorKind> {
    match r {
        Ok(s) => Ok(s),
        Err(e) => Err(e.kind),
    }
}

/// The first step of a write of `size` bytes.
pub open spec fn start_spec(append: bool, content_length: Option<u64>, position: Option<u64>, size: u64) -> Result<AzblobStep, ErrorKind> {
    if append {
        match position {
            Some(p) => Ok(AzblobStep::AppendBlock { size, position: Some(p) }),
            None => Ok(AzblobStep::GetProperties),
        }
    } else if content_length.is_none() {
        Err(ErrorKind::Unsupported)
    } else {
        Ok(AzblobStep::PutBlob { size })
    }
}

/// The step after the blob's properties came back.
pub open spec fn properties_spec(size: u64, status: u16, blob_type: Option<Seq<u8>>) -> Result<AzblobStep, ErrorKind> {
    if status == STATUS_OK {
        if blob_type == Some(append_blob_tag()) {
            Ok(AzblobStep::AppendBlock { size, position: None })
        } else {
            Err(ErrorKind::ConditionNotMatch)
        }
    } else if status == STATUS_NOT_FOUND {
        Ok(AzblobStep::CreateAppendBlob)
    } else {
        Ok(AzblobStep::ReadError)
    }
}

/// The step after an appendable blob was created, and the position then
/// believed: a new blob is at offset zero.
pub open spec fn created_spec(position: Option<u64>, size: u64, status: u16) -> (AzblobStep, Option<u64>) {
    if status == STATUS_CREATED {
        (AzblobStep::AppendBlock { size, position: Some(0) }, Some(0))
    } else {
        (AzblobStep::ReadError, position)
    }
}

/// The position after an append of `size` bytes whose reply reported
/// `offset` as the offset the block was written at.
pub open spec fn next_position(offset: Option<Seq<u8>>, size: u64) -> Option<u64> {
    match offset {
        Some(h) => match decimal_u64(h) {
            Some(v) => if v + size <= u64::MAX {
                Some((v + size) as u64)
            } else {
                None
            },
            None => None,
        },
        None => None,
    }
}

impl AzblobWriter {
    pub closed spec fn spec_op(&self) -> OpWrite {
        self.op
    }

    pub closed spec fn spec_path(&self) -> Seq<char> {
        self.path@
    }

    /// The append offset the writer believes in; `None` while unknown.
    pub closed spec fn spec_position(&self) -> Option<u64> {
        self.position
    }

    pub fn new(op: OpWrite, path: String) -> (r: AzblobWriter)
        ensures
            r.spec_op() == op,
            r.spec_path() == path@,
            r.spec_position().is_none(),
    {
        AzblobWriter { op, path, position: None }
    }

    pub fn path(&self) -> (r: &str)
        ensures
            r@ == self.spec_path(),
    {
        self.path.as_str()
    }

    pub fn op(&self) -> (r: &OpWrite)
        ensures
            *r == self.spec_op(),
    {
        &self.op
    }

    pub fn position(&self) -> (r: Option<u64>)
        ensures
            r == self.spec_position(),
    {
        self.position
    }

    /// The first step of writing `size` bytes held in memory. Without the
    /// append flag a declared content length is required, and its absence
    /// fails at once, before any request.
    pub fn write(&self, size: u64) -> (r: Result<AzblobStep, Error>)
        ensures
            step_kind(r) == start_spec(self.spec_op().append, self.spec_op().content_length, self.spec_position(), size),
    {
        if self.op.append {
            match self.position {
                Some(p) => Ok(AzblobStep::AppendBlock { size, position: Some(p) }),
                None => Ok(AzblobStep::GetProperties),
            }
        } else if self.op.content_length.is_none() {
            Err(Error::new(ErrorKind::Unsupported, "write without content length is not supported"))
        } else {
            Ok(AzblobStep::PutBlob { size })
        }
    }

    /// The first step of writing a stream of `size` bytes: the same as `write`.
    pub fn sink(&self, size: u64) -> (r: Result<AzblobStep, Error>)
        ensures
            step_kind(r) == start_spec(self.spec_op().append, self.spec_op().content_length, self.spec_position(), size),
    {
        self.write(size)
    }

    /// The step after a single-request upload answered with `status`.
    pub fn on_put(&self, status: u16) -> (r: AzblobStep)
        ensures
            r == (if status == STATUS_CREATED || status == STATUS_OK {
                AzblobStep::Done
            } else {
                AzblobStep::ReadError
            }),
    {
        if status == STATUS_CREATED || status == STATUS_OK {
            AzblobStep::Done
        } else {
            AzblobStep::ReadError
        }
    }

    /// The step after the blob's properties were asked for, while appending
    /// `size` bytes. An existing blob that is not appendable fails the write.
    pub fn on_properties(&self, size: u64, status: u16, blob_type: Option<&[u8]>) -> (r: Result<AzblobStep, Error>)
        ensures
            step_kind(r) == properties_spec(size, status, slice_view(blob_type)),
    {
        if status == STATUS_OK {
            if is_append_blob(blob_type) {
                Ok(AzblobStep::AppendBlock { size, position: None })
            } else {
                Err(Error::new(ErrorKind::ConditionNotMatch, "the blob is not an appendable blob."))
            }
        } else if status == STATUS_NOT_FOUND {
            Ok(AzblobStep::CreateAppendBlob)
        } else {
            Ok(AzblobStep::ReadError)
        }
    }

    /// The step after an appendable blob was created, while appending `size`
    /// bytes: a new blob is at offset zero.
    pub fn on_created(&mut self, size: u64, status: u16) -> (r: AzblobStep)
        ensures
            final(self).spec_op() == old(self).spec_op(),
            final(self).spec_path() == old(self).spec_path(),
            (r, final(self).spec_position()) == created_spec(old(self).spec_position(), size, status),
    {
        if status == STATUS_CREATED {
            self.position = Some(0);
            AzblobStep::AppendBlock { size, position: Some(0) }
        } else {
            AzblobStep::ReadError
        }
    }

    /// The step after an append of `size` bytes answered with `status` and,
    /// perhaps, the offset the block was written at. On success the writer
    /// believes the blob to end after that block; where the offset is missing,
    /// unreadable or the sum would not fit, the position becomes unknown and
    /// is looked up again on the next append.
    pub fn on_appended(&mut self, size: u64, status: u16, offset: Option<&[u8]>) -> (r: AzblobStep)
        ensures
            final(self).spec_op() == old(self).spec_op(),
            final(self).spec_path() == old(self).spec_path(),
            status == STATUS_CREATED ==> r == AzblobStep::Done
                && final(self).spec_position() == next_position(slice_view(offset), size),
            status != STATUS_CREATED ==> r == AzblobStep::ReadError
                && final(self).spec_position() == old(self).spec_position(),
    {
        if status == STATUS_CREATED {
            let reported = match offset {
                Some(h) => parse_decimal_u64(h),
                None => None,
            };
            self.position = match reported {
                Some(v) => v.checked_add(size),
                None => None,
            };
            AzblobStep::Done
        } else {
            AzblobStep::ReadError
        }
    }

    /// Nothing to cancel: each request already committed or never started.
    pub fn abort(&mut self) -> (r: Result<(), Error>)
        ensures
            r.is_ok(),
            *final(self) == *old(self),
    {
        Ok(())
    }

    /// Nothing to finish: each request already committed.
    pub fn close(&mut self) -> (r: Result<(), Error>)
        ensures
            r.is_ok(),
            *final(self) == *old(self),
    {
        Ok(())
    }
}

/// Without the append flag and without a declared length, every write
/// and every sink fails as unsupported, whatever the position and size,
/// and no step toward the service is taken.
pub proof fn lemma_unsized_upload_refused(position: Option<u64>, size: u64)
    ensures
        start_spec(false, None, position, size) == Err::<AzblobStep, ErrorKind>(ErrorKind::Unsupported),
{
}

/// Appending to a blob that does not exist yet: the writer asks for the
/// blob's properties, creates the blob when they report it absent, appends
/// its first block at offset zero, and presents on the next append the
/// position that the reply to the first one reports.
pub proof fn lemma_append_to_absent_blob(
    content_length: Option<u64>,
    first: u64,
    second: u64,
    not_found_type: Option<Seq<u8>>,
    offset: Seq<u8>,
)
    requires
        decimal_u64(offset) is Some,
        decimal_u64(offset).unwrap() + first <= u64::MAX,
    ensures
        start_spec(true, content_length, None, first) == Ok::<AzblobStep, ErrorKind>(AzblobStep::GetProperties),
        properties_spec(first, STATUS_NOT_FOUND, not_found_type) == Ok::<AzblobStep, ErrorKind>(AzblobStep::CreateAppendBlob),
        created_spec(None, first, STATUS_CREATED) == (AzblobStep::AppendBlock { size: first, position: Some(0) }, Some(0u64)),
        next_position(Some(offset), first) == Some((decimal_u64(offset).unwrap() + first) as u64),
        start_spec(true, content_length, next_position(Some(offset), first), second)
            == Ok::<AzblobStep, ErrorKind>(AzblobStep::AppendBlock {
                size: second,
                position: Some((decimal_u64(offset).unwrap() + first) as u64),
            }),
{
}

} // verus!
