//! Favicon discovery: URL normalisation, candidate harvesting from a page's
//! head section, selection of the first candidate that decodes as an image,
//! and resizing of the result.

pub mod errors;
pub mod favicon;
pub mod harvest;
pub mod race;
pub mod resolver;
pub mod site_url;
pub mod size;
pub mod text;

pub use errors::{ExternalError, FavilibError};
pub use favicon::{Favicon, ImageFormat};
pub use harvest::{
    extract_head, favicon_candidates, first_head, get_favicon_urls_from_header,
    get_page_head_section, harvest, harvest_elements, names_icon_type, HeadElements, HeadSection,
    LinkElement,
};
pub use race::{Lane, Race, Step};
pub use resolver::{first_valid, resolve_fetched, validate, Fetched};
pub use site_url::{add_www_to_host, parse_url, with_default_scheme, www_host, SiteUrl};
pub use size::ImageSize;
