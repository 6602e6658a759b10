use vstd::prelude::*;

use crate::error::{Error, ErrorKind};
use crate::op::OpWrite;

verus! {

/// A backend whose only write is one upload of the whole body, of a length
/// declared in advance.
pub struct OneShotWriter {
    content_length: Option<u64>,
}

impl OneShotWriter {
    pub closed spec fn spec_content_length(&self) -> Option<u64> {
        self.content_length
    }

    pub fn new(op: &OpWrite) -> (r: OneShotWriter)
        ensures
            r.spec_content_length() == op.content_length,
    {
        OneShotWriter { content_length: op.content_length }
    }

    /// The size of the single upload that writes `size` bytes; without a
    /// declared length the write is unsupported and nothing is sent.
    pub fn write(&self, size: u64) -> (r: Result<u64, Error>)
        ensures
            self.spec_content_length().is_none() <==> r.is_err(),
            r.is_err() ==> r.unwrap_err().kind == ErrorKind::Unsupported,
            r.is_ok() ==> r.unwrap() == size,
    {
        if self.content_length.is_none() {
            Err(Error::new(ErrorKind::Unsupported, "write without content length is not supported"))
        } else {
            Ok(size)
        }
    }

    /// The same as `write`, for a body that comes as a stream of `size` bytes.
    pub fn sink(&self, size: u64) -> (r: Result<u64, Error>)
        ensures
            self.spec_content_length().is_none() <==> r.is_err(),
            r.is_err() ==> r.unwrap_err().kind == ErrorKind::Unsupported,
            r.is_ok() ==> r.unwrap() == size,
    {
        self.write(size)
    }
}

/// What the backend reports of the target object before the first append.
#[derive(Debug, Clone, Copy, PartialEq, Eq, Structural)]
pub enum ObjectState {
    /// The object exists, accepts appends, and ends at this offset.
    Appendable(u64),
    /// The object exists and cannot be appended to.
    NotAppendable,
    /// No object exists at the path.
    Absent,
}

/// The next exchange with the backend that an append needs.
#[derive(Debug, Clone, Copy, PartialEq, Eq, Structural)]
pub enum AppendStep {
    /// Ask what the object is; the answer goes to `on_state`.
    QueryState,
    /// Create an empty appendable object; success goes to `on_created`.
    Create,
    /// Append `size` bytes at `offset`; the offset reported back goes to `on_appended`.
    Append { offset: u64, size: u64 },
}

/// An append-only object written by successive appends. The offset is
/// learned lazily, once, on the first write; afterwards each append presents
/// the offset the previous one reported.
pub struct AppendObjectWriter {
    offset: Option<u64>,
}

impl AppendObjectWriter {
    /// The offset the writer believes the object ends at; `None` while unknown.
    pub closed spec fn spec_offset(&self) -> Option<u64> {
        self.offset
    }

    pub fn new() -> (r: AppendObjectWriter)
        ensures
            r.spec_offset().is_none(),
    {
        AppendObjectWriter { offset: None }
    }

    pub fn offset(&self) -> (r: Option<u64>)
        ensures
            r == self.spec_offset(),
    {
        self.offset
    }

    /// The step that writes `size` bytes.
    pub fn write(&self, size: u64) -> (r: AppendStep)
        ensures
            r == append_start_spec(self.spec_offset(), size),
    {
        match self.offset {
            Some(offset) => AppendStep::Append { offset, size },
            None => AppendStep::QueryState,
        }
    }

    /// The same as `write`, for a body that comes as a stream of `size` bytes.
    pub fn sink(&self, size: u64) -> (r: AppendStep)
        ensures
            r == append_start_spec(self.spec_offset(), size),
    {
        self.write(size)
    }

    /// The step after the object's state came back, while writing `size`
    /// bytes. An object that cannot be appended to fails the write.
    pub fn on_state(&mut self, size: u64, state: ObjectState) -> (r: Result<AppendStep, Error>)
        ensures
            state == ObjectState::NotAppendable <==> r.is_err(),
            r.is_err() ==> r.unwrap_err().kind == ErrorKind::ConditionNotMatch
                && final(self).spec_offset() == old(self).spec_offset(),
            r.is_ok() ==> (r.unwrap(), final(self).spec_offset()) == append_state_spec(old(self).spec_offset(), size, state),
    {
        match state {
            ObjectState::Appendable(offset) => {
                self.offset = Some(offset);
                Ok(AppendStep::Append { offset, size })
            },
            ObjectState::NotAppendable => Err(Error::new(ErrorKind::ConditionNotMatch, "the object is not appendable")),
            ObjectState::Absent => Ok(AppendStep::Create),
        }
    }

    /// The step after an empty object was created, while writing `size`
    /// bytes: it is appended at offset zero.
    pub fn on_created(&mut self, size: u64) -> (r: AppendStep)
        ensures
            r == (AppendStep::Append { offset: 0, size }),
            final(self).spec_offset() == Some(0u64),
    {
        self.offset = Some(0);
        AppendStep::Append { offset: 0, size }
    }

    /// Adopts the offset the backend reported after a successful append.
    pub fn on_appended(&mut self, new_offset: u64)
        ensures
            final(self).spec_offset() == Some(new_offset),
    {
        self.offset = Some(new_offset);
    }
}

pub open spec fn append_start_spec(offset: Option<u64>, size: u64) -> AppendStep {
    match offset {
        Some(o) => AppendStep::Append { offset: o, size },
        None => AppendStep::QueryState,
    }
}

pub open spec fn append_state_spec(offset: Option<u64>, size: u64, state: ObjectState) -> (AppendStep, Option<u64>) {
    match state {
        ObjectState::Appendable(o) => (AppendStep::Append { offset: o, size }, Some(o)),
        _ => (AppendStep::Create, offset),
    }
}

/// Appending to an absent object: the first write asks what the object is,
/// the answer "absent" leads to its creation, the first append goes at
/// offset zero, and the next write appends at the offset that the first
/// append reported.
pub proof fn lemma_append_object_from_absent(first: u64, second: u64, reported: u64)
    ensures
        append_start_spec(None, first) == AppendStep::QueryState,
        append_state_spec(None, first, ObjectState::Absent) == (AppendStep::Create, None::<u64>),
        append_start_spec(Some(reported), second) == (AppendStep::Append { offset: reported, size: second }),
{
}

} // verus!
