//! The closed set of session errors, and the mapping from the engine's error
//! state to it.

use vstd::prelude::*;
use crate::codes::{
    ENC_ERR_API_USAGE, ENC_ERR_BAD_INPUT, ENC_ERR_JBRD, ENC_ERR_NOT_SUPPORTED, ENC_ERR_OK,
    ENC_ERR_OOM, DEC_SUCCESS,
};

verus! {

/// What can go wrong in a session.
#[derive(Debug, Clone, Copy, PartialEq, Eq, Hash, Structural)]
pub enum Error {
    /// The engine could not allocate.
    OutOfMemory,
    /// The engine cannot produce JPEG bitstream reconstruction data for this input.
    JpegBitstreamReconstruction,
    /// A call out of order, a key of another session, a submission used twice,
    /// an option value out of range.
    ApiUsage,
    /// The engine rejected the payload.
    BadInput,
    /// The feature is not available in this engine.
    NotSupported,
    /// Any failure that is none of the others.
    Unknown,
}

/// The meaning of the encoder's error state: `Ok` for "no error", else the
/// error kind; every code outside the known set is `Unknown`.
pub open spec fn encoder_error(code: u32) -> Result<(), Error> {
    if code == ENC_ERR_OK {
        Ok(())
    } else if code == ENC_ERR_OOM {
        Err(Error::OutOfMemory)
    } else if code == ENC_ERR_JBRD {
        Err(Error::JpegBitstreamReconstruction)
    } else if code == ENC_ERR_API_USAGE {
        Err(Error::ApiUsage)
    } else if code == ENC_ERR_BAD_INPUT {
        Err(Error::BadInput)
    } else if code == ENC_ERR_NOT_SUPPORTED {
        Err(Error::NotSupported)
    } else {
        Err(Error::Unknown)
    }
}

/// The meaning of a status that a decoder call returned: success, or a
/// failure of unknown kind.
pub open spec fn decoder_error(status: u32) -> Result<(), Error> {
    if status == DEC_SUCCESS {
        Ok(())
    } else {
        Err(Error::Unknown)
    }
}

impl Error {
    /// Maps the encoder's error state, read right after an engine call, to
    /// the outcome of that call.
    pub fn try_from_libjxl_encoder(code: u32) -> (r: Result<(), Error>)
        ensures
            r == encoder_error(code),
    {
        if code == ENC_ERR_OK {
            Ok(())
        } else if code == ENC_ERR_OOM {
            Err(Error::OutOfMemory)
        } else if code == ENC_ERR_JBRD {
            Err(Error::JpegBitstreamReconstruction)
        } else if code == ENC_ERR_API_USAGE {
            Err(Error::ApiUsage)
        } else if code == ENC_ERR_BAD_INPUT {
            Err(Error::BadInput)
        } else if code == ENC_ERR_NOT_SUPPORTED {
            Err(Error::NotSupported)
        } else {
            Err(Error::Unknown)
        }
    }

    /// Maps the status that a decoder call returned to the outcome of that call.
    pub fn try_from_libjxl_decoder(status: u32) -> (r: Result<(), Error>)
        ensures
            r == decoder_error(status),
    {
        if status == DEC_SUCCESS {
            Ok(())
        } else {
            Err(Error::Unknown)
        }
    }

    /// The text of the error, as a view.
    pub open spec fn spec_message(self) -> Seq<char> {
        match self {
            Error::OutOfMemory => "out of memory"@,
            Error::JpegBitstreamReconstruction => "cannot produce JPEG bitstream reconstruction data"@,
            Error::ApiUsage => "wrong API usage"@,
            Error::BadInput => "bad input"@,
            Error::NotSupported => "not supported"@,
            Error::Unknown => "unknown error"@,
        }
    }

    /// The text of the error.
    pub fn to_string(&self) -> (s: String)
        ensures
            s@ == self.spec_message(),
    {
        match self {
            Error::OutOfMemory => "out of memory".to_string(),
            Error::JpegBitstreamReconstruction => "cannot produce JPEG bitstream reconstruction data".to_string(),
            Error::ApiUsage => "wrong API usage".to_string(),
            Error::BadInput => "bad input".to_string(),
            Error::NotSupported => "not supported".to_string(),
            Error::Unknown => "unknown error".to_string(),
        }
    }
}

} // verus!
