//! The `{code, msg, data}` envelope.

use vstd::prelude::*;

verus! {

/// Code of an envelope that carries data.
pub const CODE_SUCCESS: i32 = 0;

/// Code of an envelope that carries an error message.
pub const CODE_ERROR: i32 = 1;

/// An answer in the `{code, msg, data}` shape.
#[derive(Debug, Clone, PartialEq, Eq)]
pub struct ApiResult<T> {
    pub code: i32,
    pub msg: Option<String>,
    pub data: Option<T>,
}

impl<T> ApiResult<T> {
    /// An envelope that carries `data` and no message.
    pub fn success(data: T) -> (r: Self)
        ensures
            r.code == CODE_SUCCESS,
            r.msg is None,
            r.data == Some(data),
    {
        ApiResult { code: CODE_SUCCESS, msg: None, data: Some(data) }
    }

    /// An envelope that carries the message `err` and no data.
    pub fn error(err: String) -> (r: Self)
        ensures
            r.code == CODE_ERROR,
            r.msg == Some(err),
            r.data is None,
    {
        ApiResult { code: CODE_ERROR, msg: Some(err), data: None }
    }
}

} // verus!
