use vstd::prelude::*;

verus! {

/// Every way the image pipeline can fail. Each variant carries a
/// human-readable diagnostic.
#[derive(Clone, Debug)]
pub enum ImageError {
    /// The multipart body holds no part named `file`.
    MissingFilePart(String),
    /// The `file` part declares no content type.
    UnknownContentType(String),
    /// The multipart body, or the bytes of a part, could not be read.
    MalformedBody(String),
    /// The bytes carry no known image signature.
    UnrecognizedFormat(String),
    /// The signature was known but the payload could not be decoded.
    DecodeError(String),
    /// A transform parameter is out of range or unknown.
    InvalidParameter(String),
    /// The requested output encoding is not one of png, jpeg, gif.
    UnsupportedOutputFormat(String),
    /// The encoder failed on a decoded image.
    EncodeError(String),
}

impl ImageError {
    /// The diagnostic carried by the error.
    pub open spec fn spec_detail(&self) -> Seq<char> {
        match self {
            ImageError::MissingFilePart(s) => s@,
            ImageError::UnknownContentType(s) => s@,
            ImageError::MalformedBody(s) => s@,
            ImageError::UnrecognizedFormat(s) => s@,
            ImageError::DecodeError(s) => s@,
            ImageError::InvalidParameter(s) => s@,
            ImageError::UnsupportedOutputFormat(s) => s@,
            ImageError::EncodeError(s) => s@,
        }
    }

    /// The class of failure, as shown to clients.
    pub open spec fn spec_label(&self) -> Seq<char> {
        match self {
            ImageError::MissingFilePart(_) => "missing file part"@,
            ImageError::UnknownContentType(_) => "unknown content type"@,
            ImageError::MalformedBody(_) => "malformed body"@,
            ImageError::UnrecognizedFormat(_) => "unrecognized image format"@,
            ImageError::DecodeError(_) => "image decode error"@,
            ImageError::InvalidParameter(_) => "invalid parameter"@,
            ImageError::UnsupportedOutputFormat(_) => "unsupported output format"@,
            ImageError::EncodeError(_) => "image encode error"@,
        }
    }

    pub fn label(&self) -> (r: &'static str)
        ensures
            r@ == self.spec_label(),
    {
        match self {
            ImageError::MissingFilePart(_) => "missing file part",
            ImageError::UnknownContentType(_) => "unknown content type",
            ImageError::MalformedBody(_) => "malformed body",
            ImageError::UnrecognizedFormat(_) => "unrecognized image format",
            ImageError::DecodeError(_) => "image decode error",
            ImageError::InvalidParameter(_) => "invalid parameter",
            ImageError::UnsupportedOutputFormat(_) => "unsupported output format",
            ImageError::EncodeError(_) => "image encode error",
        }
    }

    /// The class of failure followed by its diagnostic.
    pub fn describe(&self) -> (r: String)
        ensures
            r@ == self.spec_label() + ": "@ + self.spec_detail(),
    {
        String::from_str(self.label()).concat(": ").concat(self.detail())
    }

    pub fn detail(&self) -> (r: &str)
        ensures
            r@ == self.spec_detail(),
    {
        match self {
            ImageError::MissingFilePart(s) => s.as_str(),
            ImageError::UnknownContentType(s) => s.as_str(),
            ImageError::MalformedBody(s) => s.as_str(),
            ImageError::UnrecognizedFormat(s) => s.as_str(),
            ImageError::DecodeError(s) => s.as_str(),
            ImageError::InvalidParameter(s) => s.as_str(),
            ImageError::UnsupportedOutputFormat(s) => s.as_str(),
            ImageError::EncodeError(s) => s.as_str(),
        }
    }
}

} // verus!
