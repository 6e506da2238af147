//! The error taxonomy shared by every stage of favicon resolution.

use vstd::prelude::*;

verus! {

/// Why a favicon could not be resolved or transformed.
#[derive(Debug, Clone, Copy, PartialEq, Eq, Structural)]
pub enum FavilibError {
    /// The input could not be turned into an absolute URL with a host.
    InvalidUrl,
    /// The page itself could not be retrieved.
    FetchError,
    /// The page has no head element.
    NoHeaderSection,
    /// No candidate could be both retrieved and decoded.
    NoFaviconFound,
    /// The bytes given for a favicon are not a decodable image.
    ImageDecodeError,
    /// The requested size is not a pair of positive dimensions.
    InvalidSize,
    /// The image cannot be written in the requested format.
    EncodeError,
}

impl FavilibError {
    /// The text that describes this error to a user.
    pub open spec fn spec_message(self) -> Seq<char> {
        match self {
            FavilibError::InvalidUrl => "Failed to parse URL"@,
            FavilibError::FetchError => "Failed to fetch favicon"@,
            FavilibError::NoHeaderSection => "No header section found"@,
            FavilibError::NoFaviconFound => "No favicon found on website"@,
            FavilibError::ImageDecodeError => "Failed to decode favicon"@,
            FavilibError::InvalidSize => "Failed to parse size"@,
            FavilibError::EncodeError => "Failed to encode favicon"@,
        }
    }

    /// Describes this error in words.
    pub fn message(&self) -> (text: &'static str)
        ensures
            text@ == self.spec_message(),
    {
        match self {
            FavilibError::InvalidUrl => "Failed to parse URL",
            FavilibError::FetchError => "Failed to fetch favicon",
            FavilibError::NoHeaderSection => "No header section found",
            FavilibError::NoFaviconFound => "No favicon found on website",
            FavilibError::ImageDecodeError => "Failed to decode favicon",
            FavilibError::InvalidSize => "Failed to parse size",
            FavilibError::EncodeError => "Failed to encode favicon",
        }
    }
}

/// What a failed run is reported as to the user of the program.
#[derive(Debug, Clone, Copy, PartialEq, Eq, Structural)]
pub enum ExternalError {
    /// The URL that was given is no URL.
    InvalidUrlError,
    /// The site has no favicon that could be fetched and decoded.
    NoFaviconFoundError,
    /// Anything else: the favicon could not be produced or written.
    WriteError,
}

/// What an error of the library is reported as.
pub open spec fn reported_as(error: FavilibError) -> ExternalError {
    match error {
        FavilibError::InvalidUrl => ExternalError::InvalidUrlError,
        FavilibError::NoFaviconFound => ExternalError::NoFaviconFoundError,
        _ => ExternalError::WriteError,
    }
}

impl ExternalError {
    /// The text that describes this report to a user.
    pub open spec fn spec_message(self) -> Seq<char> {
        match self {
            ExternalError::InvalidUrlError => "Invalid Url Provided"@,
            ExternalError::NoFaviconFoundError => "No favicon found for given URL"@,
            ExternalError::WriteError => "Could not write Favicons to file"@,
        }
    }

    /// Describes this report in words.
    pub fn message(&self) -> (text: &'static str)
        ensures
            text@ == self.spec_message(),
    {
        match self {
            ExternalError::InvalidUrlError => "Invalid Url Provided",
            ExternalError::NoFaviconFoundError => "No favicon found for given URL",
            ExternalError::WriteError => "Could not write Favicons to file",
        }
    }
}

impl From<FavilibError> for ExternalError {
    fn from(value: FavilibError) -> (report: ExternalError) {
        match value {
            FavilibError::InvalidUrl => ExternalError::InvalidUrlError,
            FavilibError::NoFaviconFound => ExternalError::NoFaviconFoundError,
            _ => ExternalError::WriteError,
        }
    }
}

impl vstd::std_specs::convert::FromSpecImpl<FavilibError> for ExternalError {
    open spec fn obeys_from_spec() -> bool {
        true
    }

    open spec fn from_spec(value: FavilibError) -> ExternalError {
        reported_as(value)
    }
}

} // verus!
