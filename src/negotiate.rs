//! The Settings Negotiator: validates a settings request against a device's
//! capability snapshot and picks the driver's own options for the ticket.
use vstd::prelude::*;
use crate::catalog::{find_printer, names_device, sanitize_name};
use crate::model::{Capabilities, MediaSizeOption, Orientation, PageSize, PrintSettings};
use crate::report::reported_name;

verus! {

/// Why a request could not be negotiated or carried out. The variants that
/// stand for a driver or OS fault carry its diagnostic message.
#[derive(Clone, Debug)]
pub enum NegotiationError {
    NoSuchPrinter,
    DriverQueryFailed(String),
    NoSuchOrientation,
    NoSuchPageSize,
    TicketBuildFailed(String),
    PrintSubmissionFailed(String),
}

/// The selections a ticket is built from. Option selections are positions in
/// the capability snapshot, so the driver's own option objects are merged.
#[derive(Clone, Copy, Debug, PartialEq, Eq, Structural)]
pub struct TicketPlan {
    pub copies: Option<u16>,
    pub orientation: Option<usize>,
    pub page_media_size: Option<usize>,
}

/// `i` is the first orientation option whose predefined identity is `o`.
pub open spec fn first_orientation(opts: Seq<Option<Orientation>>, o: Orientation, i: int) -> bool {
    &&& 0 <= i < opts.len()
    &&& opts[i] == Some(o)
    &&& forall|j: int| 0 <= j < i ==> #[trigger] opts[j] != Some(o)
}

/// Some orientation option of the snapshot has the predefined identity `o`.
pub open spec fn offers_orientation(opts: Seq<Option<Orientation>>, o: Orientation) -> bool {
    exists|i: int| 0 <= i < opts.len() && #[trigger] opts[i] == Some(o)
}

/// A requested page size matches an option: by sanitized display name when
/// a name is given, otherwise by exact width and height.
pub open spec fn page_matches(m: MediaSizeOption, req: PageSize) -> bool {
    match req.name {
        Some(n) => reported_name(m) == Some(n@),
        None => m.width == req.width && m.height == req.height,
    }
}

/// `i` is the first page-media-size option that matches `req`.
pub open spec fn first_page_size(sizes: Seq<MediaSizeOption>, req: PageSize, i: int) -> bool {
    &&& 0 <= i < sizes.len()
    &&& page_matches(sizes[i], req)
    &&& forall|j: int| 0 <= j < i ==> !page_matches(#[trigger] sizes[j], req)
}

/// Some page-media-size option of the snapshot matches `req`.
pub open spec fn offers_page_size(sizes: Seq<MediaSizeOption>, req: PageSize) -> bool {
    exists|i: int| 0 <= i < sizes.len() && page_matches(#[trigger] sizes[i], req)
}

/// The requested orientation, if any, is offered.
pub open spec fn orientation_ok(cap: Capabilities, s: PrintSettings) -> bool {
    match s.orientation {
        Some(o) => offers_orientation(cap.orientations@, o),
        None => true,
    }
}

/// The requested page size, if any, is offered.
pub open spec fn page_size_ok(cap: Capabilities, s: PrintSettings) -> bool {
    match s.page_size {
        Some(p) => offers_page_size(cap.page_media_sizes@, p),
        None => true,
    }
}

/// Every requested feature is offered by the snapshot.
pub open spec fn acceptable(cap: Capabilities, s: PrintSettings) -> bool {
    orientation_ok(cap, s) && page_size_ok(cap, s)
}

/// `plan` carries the requested copy count unchanged and selects, for each
/// requested feature, the first snapshot option that meets it.
pub open spec fn realizes(cap: Capabilities, s: PrintSettings, plan: TicketPlan) -> bool {
    &&& plan.copies == s.copies
    &&& match s.orientation {
        Some(o) => plan.orientation matches Some(i) && first_orientation(cap.orientations@, o, i as int),
        None => plan.orientation is None,
    }
    &&& match s.page_size {
        Some(p) => plan.page_media_size matches Some(i) && first_page_size(cap.page_media_sizes@, p, i as int),
        None => plan.page_media_size is None,
    }
}

/// The outcome of negotiating `s` against the snapshot `cap`: orientation is
/// checked before page size, and a plan comes exactly when both are offered.
pub open spec fn negotiated(cap: Capabilities, s: PrintSettings, r: Result<TicketPlan, NegotiationError>) -> bool {
    if !orientation_ok(cap, s) {
        r matches Err(NegotiationError::NoSuchOrientation)
    } else if !page_size_ok(cap, s) {
        r matches Err(NegotiationError::NoSuchPageSize)
    } else {
        r matches Ok(plan) && realizes(cap, s, plan)
    }
}

/// The first orientation option whose predefined identity is `o`.
pub fn select_orientation(opts: &Vec<Option<Orientation>>, o: Orientation) -> (r: Option<usize>)
    ensures
        match r {
            Some(i) => first_orientation(opts@, o, i as int),
            None => !offers_orientation(opts@, o),
        },
{
    let mut i: usize = 0;
    while i < opts.len()
        invariant
            i <= opts@.len(),
            forall|j: int| 0 <= j < i ==> #[trigger] opts@[j] != Some(o),
        decreases opts@.len() - i,
    {
        let hit = match opts[i] {
            Some(x) => x == o,
            None => false,
        };
        if hit {
            return Some(i);
        }
        i = i + 1;
    }
    None
}

/// Whether the requested page size matches the option `m`.
pub fn page_size_matches(m: &MediaSizeOption, req: &PageSize) -> (r: bool)
    ensures
        r == page_matches(*m, *req),
{
    match &req.name {
        Some(n) => match &m.display_name {
            Some(d) => {
                let shown = sanitize_name(d.as_str());
                shown == *n
            },
            None => false,
        },
        None => m.width == req.width && m.height == req.height,
    }
}

/// The first page-media-size option that matches `req`.
pub fn select_page_size(sizes: &Vec<MediaSizeOption>, req: &PageSize) -> (r: Option<usize>)
    ensures
        match r {
            Some(i) => first_page_size(sizes@, *req, i as int),
            None => !offers_page_size(sizes@, *req),
        },
{
    let mut i: usize = 0;
    while i < sizes.len()
        invariant
            i <= sizes@.len(),
            forall|j: int| 0 <= j < i ==> !page_matches(#[trigger] sizes@[j], *req),
        decreases sizes@.len() - i,
    {
        if page_size_matches(&sizes[i], req) {
            return Some(i);
        }
        i = i + 1;
    }
    None
}

/// Validates `settings` against the snapshot `cap` and selects the options
/// a ticket is built from.
pub fn plan_ticket(cap: &Capabilities, settings: &PrintSettings) -> (r: Result<TicketPlan, NegotiationError>)
    ensures
        negotiated(*cap, *settings, r),
{
    let orientation = match settings.orientation {
        Some(o) => match select_orientation(&cap.orientations, o) {
            Some(i) => Some(i),
            None => {
                return Err(NegotiationError::NoSuchOrientation);
            },
        },
        None => None,
    };
    let page_media_size = match &settings.page_size {
        Some(p) => match select_page_size(&cap.page_media_sizes, p) {
            Some(i) => Some(i),
            None => {
                return Err(NegotiationError::NoSuchPageSize);
            },
        },
        None => None,
    };
    Ok(TicketPlan { copies: settings.copies, orientation, page_media_size })
}

/// Resolves the target printer among the listed devices by exact match on
/// the sanitized device name.
pub fn resolve_printer(devices: &Vec<String>, name: &String) -> (r: Result<usize, NegotiationError>)
    ensures
        match r {
            Ok(i) => {
                &&& i < devices@.len()
                &&& names_device(devices@[i as int]@, name@)
                &&& forall|j: int| 0 <= j < i ==> !names_device(#[trigger] devices@[j]@, name@)
            },
            Err(e) => {
                &&& e is NoSuchPrinter
                &&& forall|j: int| 0 <= j < devices@.len() ==> !names_device(#[trigger] devices@[j]@, name@)
            },
        },
{
    match find_printer(devices, name) {
        Some(i) => Ok(i),
        None => Err(NegotiationError::NoSuchPrinter),
    }
}

/// Negotiates `settings` against the outcome of a capability fetch: a failed
/// fetch is reported with its diagnostic, never replaced by guessed data.
pub fn negotiate(fetched: Result<Capabilities, String>, settings: &PrintSettings) -> (r: Result<TicketPlan, NegotiationError>)
    ensures
        match fetched {
            Ok(cap) => negotiated(cap, *settings, r),
            Err(d) => r matches Err(NegotiationError::DriverQueryFailed(m)) && m@ == d@,
        },
{
    match fetched {
        Ok(cap) => plan_ticket(&cap, settings),
        Err(d) => Err(NegotiationError::DriverQueryFailed(d)),
    }
}

} // verus!
