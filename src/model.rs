//! The data that the negotiation works on: client-facing settings and the
//! capability snapshot that a driver reported for one device.
use vstd::prelude::*;

verus! {

/// One of the four predefined page orientations.
#[derive(Clone, Copy, Debug, PartialEq, Eq, Structural)]
pub enum Orientation {
    Portrait,
    Landscape,
    ReversePortrait,
    ReverseLandscape,
}

/// A page size as clients see and request it: an optional display name and
/// exact dimensions in micrometers.
#[derive(Clone, Debug)]
pub struct PageSize {
    pub name: Option<String>,
    pub width: u32,
    pub height: u32,
}

/// What a client asks for: the target printer and optional features.
#[derive(Clone, Debug)]
pub struct PrintSettings {
    pub printer: String,
    pub copies: Option<u16>,
    pub orientation: Option<Orientation>,
    pub page_size: Option<PageSize>,
}

/// One page-media-size option as the driver reports it.
#[derive(Clone, Debug)]
pub struct MediaSizeOption {
    pub display_name: Option<String>,
    pub width: u32,
    pub height: u32,
}

/// A device's capability snapshot. Each option is kept at the position the
/// driver listed it in, so that a position is a handle on the driver's own
/// option object. An orientation option is `None` when it has no predefined
/// identity.
#[derive(Clone, Debug)]
pub struct Capabilities {
    pub max_copies: Option<u16>,
    pub orientations: Vec<Option<Orientation>>,
    pub page_media_sizes: Vec<MediaSizeOption>,
}

/// The capabilities of a device as they are reported to clients.
#[derive(Clone, Debug)]
pub struct PrinterCapability {
    pub max_copies: Option<u16>,
    pub orientations: Option<Vec<Orientation>>,
    pub page_sizes: Option<Vec<PageSize>>,
}

/// The view of an optional string.
pub open spec fn opt_view(s: Option<String>) -> Option<Seq<char>> {
    match s {
        Some(v) => Some(v@),
        None => None,
    }
}

} // verus!
