//! Where a rendered workflow is written, and when the user must confirm it.

use vstd::prelude::*;
use crate::text::owned;

verus! {

/// The path the user chose for the workflow.
#[derive(Debug, Clone)]
pub struct WritePath {
    pub write_path: String,
}

/// The user's answer to whether an existing file may be overwritten.
#[derive(Debug, Clone, Copy)]
pub struct ConfirmWrite {
    pub confirm: bool,
}

/// Why a workflow was not written.
#[derive(Debug, Clone, Copy, PartialEq, Eq, Structural)]
pub enum WriteError {
    /// The path exists and the user declined to overwrite it.
    Cancelled,
}

impl WriteError {
    /// The text of the error, as the user sees it.
    pub fn message(&self) -> (r: String)
        ensures
            r@ == "您已经取消写入"@,
    {
        owned("您已经取消写入")
    }
}

impl WritePath {
    /// The chosen path.
    pub fn as_str(&self) -> (r: &str)
        ensures
            r@ == self.write_path@,
    {
        self.write_path.as_str()
    }

    /// Whether the workflow may be written to the chosen path, which
    /// is `present` or not: a new path is always written, an existing one only
    /// when the user `confirm`ed overwriting it (the answer is asked for
    /// only when the path exists).
    pub fn input_and_confirm(&self, present: bool, confirm: Option<ConfirmWrite>) -> (r: Result<
        String,
        WriteError,
    >)
        ensures
            !present ==> (r matches Ok(p) && p@ == self.write_path@),
            present && (confirm matches Some(c) && c.confirm) ==> (r matches Ok(p) && p@
                == self.write_path@),
            present && !(confirm matches Some(c) && c.confirm) ==> r == Err::<String, WriteError>(
                WriteError::Cancelled,
            ),
    {
        if !present {
            return Ok(owned(self.write_path.as_str()));
        }
        match confirm {
            Some(c) => {
                if c.confirm {
                    Ok(owned(self.write_path.as_str()))
                } else {
                    Err(WriteError::Cancelled)
                }
            },
            None => Err(WriteError::Cancelled),
        }
    }
}

} // verus!
