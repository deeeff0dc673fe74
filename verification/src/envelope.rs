//! The types shared by the routers' requests and the standard envelope.

use crate::json::Json;
use vstd::prelude::*;
use vstd::string::*;

verus! {

/// Paging of a list operation.
#[derive(Clone, Copy, Debug, PartialEq, Eq)]
pub struct Pagination {
    pub limit: Option<usize>,
    pub offset: Option<usize>,
}

impl Default for Pagination {
    /// The paging of a list operation whose caller asks for none: the first
    /// fifty items.
    fn default() -> (p: Pagination)
        ensures
            p.limit == Some(50usize),
            p.offset == Some(0usize),
    {
        Pagination { limit: Some(50), offset: Some(0) }
    }
}

/// A message for an agent.
#[derive(Clone, Debug, PartialEq, Eq)]
pub struct Message {
    pub role: String,
    pub content: String,
}

/// The standard envelope: whether the operation succeeded, the resolved
/// operation's name, the payload where there is one, and a sentence.
#[derive(Debug, PartialEq, Eq)]
pub struct StandardResponse {
    pub success: bool,
    pub operation: String,
    pub data: Option<Json>,
    pub message: String,
}

impl StandardResponse {
    /// The envelope of a success with a payload.
    pub fn success(operation: &str, data: Json, message: &str) -> (r: StandardResponse)
        ensures
            r.success,
            r.operation@ == operation@,
            r.data == Some(data),
            r.message@ == message@,
    {
        StandardResponse {
            success: true,
            operation: String::from_str(operation),
            data: Some(data),
            message: String::from_str(message),
        }
    }

    /// The envelope of a success without a payload.
    pub fn success_no_data(operation: &str, message: &str) -> (r: StandardResponse)
        ensures
            r.success,
            r.operation@ == operation@,
            r.data is None,
            r.message@ == message@,
    {
        StandardResponse {
            success: true,
            operation: String::from_str(operation),
            data: None,
            message: String::from_str(message),
        }
    }

    /// The envelope that reports a failure in place of an error.
    pub fn error(operation: &str, message: &str) -> (r: StandardResponse)
        ensures
            !r.success,
            r.operation@ == operation@,
            r.data is None,
            r.message@ == message@,
    {
        StandardResponse {
            success: false,
            operation: String::from_str(operation),
            data: None,
            message: String::from_str(message),
        }
    }
}

} // verus!
