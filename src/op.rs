use vstd::prelude::*;

verus! {

/// The options of one write, fixed when the writer is opened.
#[derive(Debug)]
pub struct OpWrite {
    pub append: bool,
    pub content_length: Option<u64>,
    pub content_type: Option<String>,
    pub cache_control: Option<String>,
}

impl OpWrite {
    /// Options of a plain write: no append, no declared length, no headers.
    pub fn new() -> (r: OpWrite)
        ensures
            !r.append,
            r.content_length.is_none(),
            r.content_type.is_none(),
            r.cache_control.is_none(),
    {
        OpWrite { append: false, content_length: None, content_type: None, cache_control: None }
    }

    pub fn with_append(self, append: bool) -> (r: OpWrite)
        ensures
            r.append == append,
            r.content_length == self.content_length,
            r.content_type == self.content_type,
            r.cache_control == self.cache_control,
    {
        OpWrite { append, ..self }
    }

    pub fn with_content_length(self, len: u64) -> (r: OpWrite)
        ensures
            r.append == self.append,
            r.content_length == Some(len),
            r.content_type == self.content_type,
            r.cache_control == self.cache_control,
    {
        OpWrite { content_length: Some(len), ..self }
    }

    pub fn with_content_type(self, content_type: &str) -> (r: OpWrite)
        ensures
            r.append == self.append,
            r.content_length == self.content_length,
            r.content_type.is_some() && r.content_type.unwrap()@ == content_type@,
            r.cache_control == self.cache_control,
    {
        OpWrite { content_type: Some(content_type.to_string()), ..self }
    }

    pub fn with_cache_control(self, cache_control: &str) -> (r: OpWrite)
        ensures
            r.append == self.append,
            r.content_length == self.content_length,
            r.content_type == self.content_type,
            r.cache_control.is_some() && r.cache_control.unwrap()@ == cache_control@,
    {
        OpWrite { cache_control: Some(cache_control.to_string()), ..self }
    }

    pub fn append(&self) -> (r: bool)
        ensures
            r == self.append,
    {
        self.append
    }

    pub fn content_length(&self) -> (r: Option<u64>)
        ensures
            r == self.content_length,
    {
        self.content_length
    }

    pub fn content_type(&self) -> (r: Option<&str>)
        ensures
            r.is_some() == self.content_type.is_some(),
            r.is_some() ==> r.unwrap()@ == self.content_type.unwrap()@,
    {
        match &self.content_type {
            Some(s) => Some(s.as_str()),
            None => None,
        }
    }

    pub fn cache_control(&self) -> (r: Option<&str>)
        ensures
            r.is_some() == self.cache_control.is_some(),
            r.is_some() ==> r.unwrap()@ == self.cache_control.unwrap()@,
    {
        match &self.cache_control {
            Some(s) => Some(s.as_str()),
            None => None,
        }
    }
}

} // verus!
