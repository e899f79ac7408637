use vstd::prelude::*;

verus! {

/// What an inspect request reports of an upload.
#[derive(Clone, Debug)]
pub struct ImageStats {
    /// The length in bytes of the upload as received.
    pub size: usize,
    pub width: u32,
    pub height: u32,
    /// The content type the client declared for the upload.
    pub format: String,
}

impl ImageStats {
    pub fn new(width: u32, height: u32, size: usize, format: String) -> (r: ImageStats)
        ensures
            r.width == width,
            r.height == height,
            r.size == size,
            r.format == format,
    {
        ImageStats { size, width, height, format }
    }
}

/// The body of every error reply.
#[derive(Clone, Debug)]
pub struct ErrorMessage {
    pub message: String,
}

impl ErrorMessage {
    pub fn new(msg: &str) -> (r: ErrorMessage)
        ensures
            r.message@ == msg@,
    {
        ErrorMessage { message: String::from_str(msg) }
    }
}

} // verus!
