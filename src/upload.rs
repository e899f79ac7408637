//! Choosing the uploaded file among the parts of a multipart body.
use vstd::prelude::*;
use crate::error::ImageError;

verus! {

/// The headers of one part of a multipart body.
#[derive(Clone, Debug)]
pub struct PartHeader {
    /// The form field name of the part.
    pub name: String,
    /// The content type the client declared for the part, if any.
    pub content_type: Option<String>,
}

/// Whether the part is the upload: its field name is `file`.
pub open spec fn is_file_part(p: PartHeader) -> bool {
    p.name@ == "file"@
}

/// Whether `i` is the first part named `file`.
pub open spec fn first_file_part(parts: Seq<PartHeader>, i: int) -> bool {
    &&& 0 <= i < parts.len()
    &&& is_file_part(parts[i])
    &&& forall|j: int| 0 <= j < i ==> !is_file_part(#[trigger] parts[j])
}

/// Finds the upload among the parts: the first one named `file`. Fails with
/// `MissingFilePart` when there is none, and with `UnknownContentType` when
/// it declares no content type.
pub fn select_file_part(parts: &Vec<PartHeader>) -> (r: Result<usize, ImageError>)
    ensures
        match r {
            Ok(i) => first_file_part(parts@, i as int) && parts@[i as int].content_type is Some,
            Err(e) => (e is MissingFilePart && forall|j: int|
                0 <= j < parts@.len() ==> !is_file_part(#[trigger] parts@[j])) || (e is UnknownContentType
                && exists|i: int| first_file_part(parts@, i) && parts@[i].content_type is None),
        },
{
    let file = String::from_str("file");
    let mut i: usize = 0;
    while i < parts.len()
        invariant
            file@ == "file"@,
            i <= parts@.len(),
            forall|j: int| 0 <= j < i ==> !is_file_part(#[trigger] parts@[j]),
        decreases parts@.len() - i,
    {
        if parts[i].name == file {
            if parts[i].content_type.is_some() {
                return Ok(i);
            } else {
                assert(first_file_part(parts@, i as int));
                return Err(
                    ImageError::UnknownContentType(
                        String::from_str("file type could not be determined"),
                    ),
                );
            }
        }
        i = i + 1;
    }
    Err(ImageError::MissingFilePart(String::from_str("file not found in request")))
}

} // verus!
