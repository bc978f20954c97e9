use vstd::prelude::*;

verus! {

/// Why the link to the Trust M chip gave up.
#[derive(Clone, Copy, Debug, PartialEq, Eq, Structural)]
pub enum TrustMDeviceError {
    /// The i2c device could not be opened at the chip's address.
    InitFailed,
    /// A write was refused on every one of its attempts.
    WriteFailed,
    /// A read was refused on every one of its attempts.
    ReadFailed,
}

/// Errors reported by the library's operations.
#[derive(Debug)]
pub enum TrustMLibError {
    /// The conversation with the chip failed.
    DeviceError { source: TrustMDeviceError },
    /// The key handed in could not be used.
    KeyError(String),
    /// A signature could not be checked, or did not match.
    VerifyError(String),
}

/// What an error says, with its messages as character sequences.
pub enum ErrorModel {
    Device(TrustMDeviceError),
    Key(Seq<char>),
    Verify(Seq<char>),
}

impl View for TrustMLibError {
    type V = ErrorModel;

    open spec fn view(&self) -> ErrorModel {
        match self {
            TrustMLibError::DeviceError { source } => ErrorModel::Device(*source),
            TrustMLibError::KeyError(m) => ErrorModel::Key(m@),
            TrustMLibError::VerifyError(m) => ErrorModel::Verify(m@),
        }
    }
}

/// The view of a result whose success value is a byte vector.
pub open spec fn bytes_result_view(r: Result<Vec<u8>, TrustMLibError>) -> Result<Seq<u8>, ErrorModel> {
    match r {
        Ok(v) => Ok(v@),
        Err(e) => Err(e@),
    }
}

/// The view of a result that carries no success value.
pub open spec fn unit_result_view(r: Result<(), TrustMLibError>) -> Result<(), ErrorModel> {
    match r {
        Ok(()) => Ok(()),
        Err(e) => Err(e@),
    }
}

} // verus!
