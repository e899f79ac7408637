use vstd::prelude::*;
use crate::error::ImageError;

verus! {

/// The lower-case form of a string, as `str::to_lowercase` computes it.
pub uninterp spec fn lower_of(s: Seq<char>) -> Seq<char>;

/// Relies on `str::to_lowercase`: the lower-case form of `s`, which depends on
/// the characters of `s` alone.
#[verifier::external_body]
fn lowercase(s: &str) -> (r: String)
    ensures
        r@ == lower_of(s@),
{
    s.to_lowercase()
}

/// The resampling kernel used when scaling.
#[derive(Clone, Copy, Debug, PartialEq, Eq, Structural)]
pub enum FilterKind {
    Nearest,
    Gaussian,
}

/// The canonical (lower-case) name of each filter.
pub open spec fn filter_named(name: Seq<char>) -> Option<FilterKind> {
    if name == "nearest"@ {
        Some(FilterKind::Nearest)
    } else if name == "gaussian"@ {
        Some(FilterKind::Gaussian)
    } else {
        None
    }
}

/// The quality every JPEG is written with.
pub const JPEG_QUALITY: u8 = 100;

/// The output encodings.
#[derive(Clone, Copy, Debug, PartialEq, Eq, Structural)]
pub enum FormatKind {
    Png,
    Jpeg(u8),
    Gif,
}

/// The canonical (lower-case) name of each output encoding.
pub open spec fn format_named(name: Seq<char>) -> Option<FormatKind> {
    if name == "png"@ {
        Some(FormatKind::Png)
    } else if name == "jpeg"@ {
        Some(FormatKind::Jpeg(JPEG_QUALITY))
    } else if name == "gif"@ {
        Some(FormatKind::Gif)
    } else {
        None
    }
}

/// The name an encoding is reported under.
pub open spec fn format_name(k: FormatKind) -> Seq<char> {
    match k {
        FormatKind::Png => "png"@,
        FormatKind::Jpeg(_) => "jpeg"@,
        FormatKind::Gif => "gif"@,
    }
}

/// Whether two strings hold the same characters.
fn same_text(a: &str, b: &str) -> (r: bool)
    ensures
        r == (a@ == b@),
{
    let x = String::from_str(a);
    let y = String::from_str(b);
    x == y
}

/// The filter a resize request asked for.
#[derive(Clone, Copy, Debug)]
pub struct ImageFilter {
    pub filter: FilterKind,
}

impl ImageFilter {
    /// Looks up a filter by its canonical (lower-case) name.
    pub fn from_lowercase(name: &str) -> (r: Result<ImageFilter, ImageError>)
        ensures
            match filter_named(name@) {
                Some(k) => r matches Ok(f) && f.filter == k,
                None => r matches Err(ImageError::InvalidParameter(m))
                    && m@ == "unknown filter type "@ + name@,
            },
    {
        if same_text(name, "nearest") {
            Ok(ImageFilter { filter: FilterKind::Nearest })
        } else if same_text(name, "gaussian") {
            Ok(ImageFilter { filter: FilterKind::Gaussian })
        } else {
            Err(ImageError::InvalidParameter(String::from_str("unknown filter type ").concat(name)))
        }
    }

    /// Looks up a filter by name, ignoring case.
    pub fn parse(name: &str) -> (r: Result<ImageFilter, ImageError>)
        ensures
            match filter_named(lower_of(name@)) {
                Some(k) => r matches Ok(f) && f.filter == k,
                None => r matches Err(ImageError::InvalidParameter(m))
                    && m@ == "unknown filter type "@ + lower_of(name@),
            },
    {
        let lowered = lowercase(name);
        ImageFilter::from_lowercase(lowered.as_str())
    }
}

impl Default for ImageFilter {
    fn default() -> (r: ImageFilter)
        ensures
            r.filter == FilterKind::Nearest,
    {
        ImageFilter { filter: FilterKind::Nearest }
    }
}

/// The encoding a transformed image is written in.
#[derive(Clone, Copy, Debug)]
pub struct OutputFormat {
    pub format: FormatKind,
}

impl OutputFormat {
    /// Looks up an encoding by its canonical (lower-case) name.
    pub fn from_lowercase(name: &str) -> (r: Result<OutputFormat, ImageError>)
        ensures
            match format_named(name@) {
                Some(k) => r matches Ok(f) && f.format == k,
                None => r matches Err(ImageError::UnsupportedOutputFormat(m))
                    && m@ == "can't convert to "@ + name@,
            },
    {
        if same_text(name, "png") {
            Ok(OutputFormat { format: FormatKind::Png })
        } else if same_text(name, "jpeg") {
            Ok(OutputFormat { format: FormatKind::Jpeg(JPEG_QUALITY) })
        } else if same_text(name, "gif") {
            Ok(OutputFormat { format: FormatKind::Gif })
        } else {
            Err(
                ImageError::UnsupportedOutputFormat(
                    String::from_str("can't convert to ").concat(name),
                ),
            )
        }
    }

    /// Looks up an encoding by name, ignoring case.
    pub fn parse(name: &str) -> (r: Result<OutputFormat, ImageError>)
        ensures
            match format_named(lower_of(name@)) {
                Some(k) => r matches Ok(f) && f.format == k,
                None => r matches Err(ImageError::UnsupportedOutputFormat(m))
                    && m@ == "can't convert to "@ + lower_of(name@),
            },
    {
        let lowered = lowercase(name);
        OutputFormat::from_lowercase(lowered.as_str())
    }

    /// The canonical name of the encoding.
    pub fn name(&self) -> (r: &'static str)
        ensures
            r@ == format_name(self.format),
    {
        match self.format {
            FormatKind::Png => "png",
            FormatKind::Jpeg(_) => "jpeg",
            FormatKind::Gif => "gif",
        }
    }

    /// The MIME type of the encoding: `image/<name>`.
    pub fn mime(&self) -> (r: String)
        ensures
            r@ == "image/"@ + format_name(self.format),
    {
        String::from_str("image/").concat(self.name())
    }
}

impl Default for OutputFormat {
    fn default() -> (r: OutputFormat)
        ensures
            r.format == FormatKind::Png,
    {
        OutputFormat { format: FormatKind::Png }
    }
}

/// The query of a request that only picks an output encoding.
#[derive(Clone, Debug)]
pub struct ImageOutputQuery {
    pub output_format: Option<String>,
}

/// What an optional encoding name resolves to: the default when absent.
pub open spec fn output_choice(name: Option<String>) -> Option<FormatKind> {
    match name {
        Some(s) => format_named(lower_of(s@)),
        None => Some(FormatKind::Png),
    }
}

/// What an optional filter name resolves to: the default when absent.
pub open spec fn filter_choice(name: Option<String>) -> Option<FilterKind> {
    match name {
        Some(s) => filter_named(lower_of(s@)),
        None => Some(FilterKind::Nearest),
    }
}

/// Whether the aspect ratio is kept: unless the query says otherwise.
pub open spec fn keep_choice(keep_aspect: Option<bool>) -> bool {
    match keep_aspect {
        Some(b) => b,
        None => true,
    }
}

/// Resolves an optional encoding name.
fn resolve_output(name: &Option<String>) -> (r: Result<OutputFormat, ImageError>)
    ensures
        match output_choice(*name) {
            Some(k) => r matches Ok(f) && f.format == k,
            None => r matches Err(e) && e is UnsupportedOutputFormat,
        },
{
    match name {
        Some(s) => OutputFormat::parse(s.as_str()),
        None => Ok(OutputFormat::default()),
    }
}

impl ImageOutputQuery {
    /// The output encoding asked for; png when none is named.
    pub fn output(&self) -> (r: Result<OutputFormat, ImageError>)
        ensures
            match output_choice(self.output_format) {
                Some(k) => r matches Ok(f) && f.format == k,
                None => r matches Err(e) && e is UnsupportedOutputFormat,
            },
    {
        resolve_output(&self.output_format)
    }
}

impl Default for ImageOutputQuery {
    fn default() -> (r: ImageOutputQuery)
        ensures
            r.output_format matches Some(s) && s@ == "png"@,
    {
        ImageOutputQuery { output_format: Some(String::from_str("png")) }
    }
}

/// The query of a resize request.
#[derive(Clone, Debug)]
pub struct ImageResizeQuery {
    pub keep_aspect: Option<bool>,
    pub output_format: Option<String>,
    pub filter_type: Option<String>,
}

impl ImageResizeQuery {
    /// The output encoding asked for; png when none is named.
    pub fn output(&self) -> (r: Result<OutputFormat, ImageError>)
        ensures
            match output_choice(self.output_format) {
                Some(k) => r matches Ok(f) && f.format == k,
                None => r matches Err(e) && e is UnsupportedOutputFormat,
            },
    {
        resolve_output(&self.output_format)
    }

    /// The resampling filter asked for; nearest when none is named.
    pub fn filter(&self) -> (r: Result<ImageFilter, ImageError>)
        ensures
            match filter_choice(self.filter_type) {
                Some(k) => r matches Ok(f) && f.filter == k,
                None => r matches Err(e) && e is InvalidParameter,
            },
    {
        match &self.filter_type {
            Some(s) => ImageFilter::parse(s.as_str()),
            None => Ok(ImageFilter::default()),
        }
    }

    /// Whether the aspect ratio is kept; it is unless the query says otherwise.
    pub fn keeps_aspect(&self) -> (r: bool)
        ensures
            r == keep_choice(self.keep_aspect),
    {
        match self.keep_aspect {
            Some(b) => b,
            None => true,
        }
    }
}

impl Default for ImageResizeQuery {
    fn default() -> (r: ImageResizeQuery)
        ensures
            r.keep_aspect == Some(true),
            r.output_format matches Some(s) && s@ == "png"@,
            r.filter_type matches Some(s) && s@ == "nearest"@,
    {
        ImageResizeQuery {
            keep_aspect: Some(true),
            output_format: Some(String::from_str("png")),
            filter_type: Some(String::from_str("nearest")),
        }
    }
}

} // verus!
