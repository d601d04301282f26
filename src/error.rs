use vstd::prelude::*;

verus! {

/// Why a transfer stopped before completing.
#[derive(Clone, Copy, Debug, PartialEq, Eq, Structural)]
pub enum TransferError {
    /// The request could not be issued, the response was an error status,
    /// or the connection broke while the body was streaming.
    ConnectFailed,
    /// The response declared no content length.
    UnknownSize,
    /// The destination file could not be created.
    FileCreateFailed,
    /// The source file could not be opened or measured.
    FileOpenFailed,
    /// A received chunk could not be written to the destination.
    WriteFailed,
    /// The upload request failed or was answered with an error status.
    UploadFailed,
}

pub open spec fn message_of(e: TransferError) -> Seq<char> {
    match e {
        TransferError::ConnectFailed => "Failed to GET from"@,
        TransferError::UnknownSize => "Failed to get content length"@,
        TransferError::FileCreateFailed => "Failed to create file"@,
        TransferError::FileOpenFailed => "Failed to open file"@,
        TransferError::WriteFailed => "Error while writing to file"@,
        TransferError::UploadFailed => "Failed to PUT file"@,
    }
}

impl TransferError {
    /// The human-readable message handed to the user interface.
    pub fn message(&self) -> (r: String)
        ensures
            r@ == message_of(*self),
    {
        match self {
            TransferError::ConnectFailed => String::from_str("Failed to GET from"),
            TransferError::UnknownSize => String::from_str("Failed to get content length"),
            TransferError::FileCreateFailed => String::from_str("Failed to create file"),
            TransferError::FileOpenFailed => String::from_str("Failed to open file"),
            TransferError::WriteFailed => String::from_str("Error while writing to file"),
            TransferError::UploadFailed => String::from_str("Failed to PUT file"),
        }
    }
}

} // verus!
