//! The two exception kinds the library surfaces, and the translator that
//! turns a native codec failure into the kind matching the calling path.

use vstd::prelude::*;

verus! {

/// A failure surfaced to the host.  Every native error of a compress path
/// becomes `CompressionError`, every one of a decompress path
/// `DecompressionError`; the native message is preserved verbatim.
#[derive(Debug)]
pub enum CodecError {
    CompressionError(String),
    DecompressionError(String),
}

impl CodecError {
    /// Which of the two kinds this failure is.
    pub open spec fn is_compression(&self) -> bool {
        self is CompressionError
    }

    /// The preserved native message.
    pub open spec fn message_view(&self) -> Seq<char> {
        match self {
            CodecError::CompressionError(m) => m@,
            CodecError::DecompressionError(m) => m@,
        }
    }

    /// The preserved native message, for the host to display.
    pub fn message(&self) -> (m: &String)
        ensures
            m@ == self.message_view(),
    {
        match self {
            CodecError::CompressionError(m) => m,
            CodecError::DecompressionError(m) => m,
        }
    }
}

/// The error translator: no failure is swallowed or retried, it is wrapped
/// into the exception kind of the path it came from, message intact.
pub fn translate<T>(res: Result<T, String>, compressing: bool) -> (r: Result<T, CodecError>)
    ensures
        match res {
            Ok(t) => r matches Ok(u) && u == t,
            Err(m) => r matches Err(e) && e.is_compression() == compressing && e.message_view()
                == m@,
        },
{
    match res {
        Ok(t) => Ok(t),
        Err(m) => {
            if compressing {
                Err(CodecError::CompressionError(m))
            } else {
                Err(CodecError::DecompressionError(m))
            }
        },
    }
}

} // verus!
