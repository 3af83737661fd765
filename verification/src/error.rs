use vstd::prelude::*;

verus! {

/// Every failure the library can report. The orchestration layer collapses
/// all of these into one generic client-facing response; the distinctions
/// matter to callers of the individual components.
#[derive(Clone, Copy, Debug, PartialEq, Eq, Structural)]
pub enum Error {
    /// The remote fetch failed.
    Download,
    /// A local byte-stream operation failed.
    IO,
    /// Decoding or re-encoding the image failed.
    Conversion,
    /// A resize was requested with neither width nor height.
    ResizeEmptyDimension,
    /// The bytes are not in a recognized or supported image format.
    InvalidImageFormat,
    /// The target host is not on the whitelist, or the URL did not parse.
    HostNotAllowed,
    /// Catch-all.
    Unknown,
}

impl Error {
    /// The human-readable message for this error kind.
    pub open spec fn spec_message(self) -> Seq<char> {
        match self {
            Error::Download => "Error fetching image"@,
            Error::IO => "IO error"@,
            Error::Conversion => "Conversion error"@,
            Error::ResizeEmptyDimension => "Missing dimensions to resize"@,
            Error::InvalidImageFormat => "Invalid file format"@,
            Error::HostNotAllowed => "Host not allowed"@,
            Error::Unknown => "Unknown error"@,
        }
    }

    /// Returns the message reported for this error kind.
    pub fn message(&self) -> (r: &'static str)
        ensures
            r@ == self.spec_message(),
    {
        match self {
            Error::Download => "Error fetching image",
            Error::IO => "IO error",
            Error::Conversion => "Conversion error",
            Error::ResizeEmptyDimension => "Missing dimensions to resize",
            Error::InvalidImageFormat => "Invalid file format",
            Error::HostNotAllowed => "Host not allowed",
            Error::Unknown => "Unknown error",
        }
    }
}

} // verus!
