//! Capability reporting: the shape of a snapshot that clients get to see.
use vstd::prelude::*;
use crate::catalog::{sanitize_name, sanitized};
use crate::model::{Capabilities, MediaSizeOption, Orientation, PageSize, PrinterCapability, opt_view};

verus! {

/// The predefined orientations among `opts`, in order; driver-private
/// options are dropped.
pub open spec fn predefined(opts: Seq<Option<Orientation>>) -> Seq<Orientation>
    decreases opts.len(),
{
    if opts.len() == 0 {
        Seq::empty()
    } else {
        let rest = predefined(opts.drop_last());
        match opts.last() {
            Some(o) => rest.push(o),
            None => rest,
        }
    }
}

/// The display name of a page-media-size option as it is exposed: sanitized.
pub open spec fn reported_name(m: MediaSizeOption) -> Option<Seq<char>> {
    match m.display_name {
        Some(d) => Some(sanitized(d@)),
        None => None,
    }
}

/// Whether `p` is how the page-media-size option `m` is reported.
pub open spec fn reports(p: PageSize, m: MediaSizeOption) -> bool {
    &&& opt_view(p.name) == reported_name(m)
    &&& p.width == m.width
    &&& p.height == m.height
}

/// Whether `r` reports the orientation options `opts`: their predefined
/// identities in order, or `None` when there is none.
pub open spec fn orientations_reported(r: Option<Vec<Orientation>>, opts: Seq<Option<Orientation>>) -> bool {
    match r {
        Some(v) => predefined(opts).len() > 0 && v@ == predefined(opts),
        None => predefined(opts).len() == 0,
    }
}

/// Whether `r` reports the page-media-size options `sizes`: one page size
/// for each, in order, or `None` when there is none.
pub open spec fn page_sizes_reported(r: Option<Vec<PageSize>>, sizes: Seq<MediaSizeOption>) -> bool {
    match r {
        Some(v) => {
            &&& sizes.len() > 0
            &&& v@.len() == sizes.len()
            &&& forall|i: int| 0 <= i < v@.len() ==> reports(#[trigger] v@[i], sizes[i])
        },
        None => sizes.len() == 0,
    }
}

/// The predefined orientations of a snapshot, or `None` when it has none.
pub fn get_orientations(cap: &Capabilities) -> (r: Option<Vec<Orientation>>)
    ensures
        orientations_reported(r, cap.orientations@),
{
    let opts = &cap.orientations;
    let mut out: Vec<Orientation> = Vec::new();
    let mut i: usize = 0;
    while i < opts.len()
        invariant
            i <= opts@.len(),
            out@ == predefined(opts@.subrange(0, i as int)),
        decreases opts@.len() - i,
    {
        assert(opts@.subrange(0, i + 1).drop_last() == opts@.subrange(0, i as int));
        if let Some(o) = opts[i] {
            out.push(o);
        }
        i = i + 1;
    }
    assert(opts@.subrange(0, opts@.len() as int) == opts@);
    if out.len() == 0 {
        None
    } else {
        Some(out)
    }
}

/// Every page-media-size option of a snapshot, with sanitized display names,
/// or `None` when it has none.
pub fn get_page_sizes(cap: &Capabilities) -> (r: Option<Vec<PageSize>>)
    ensures
        page_sizes_reported(r, cap.page_media_sizes@),
{
    let sizes = &cap.page_media_sizes;
    let mut out: Vec<PageSize> = Vec::new();
    let mut i: usize = 0;
    while i < sizes.len()
        invariant
            i <= sizes@.len(),
            out@.len() == i,
            forall|k: int| 0 <= k < i ==> reports(#[trigger] out@[k], sizes@[k]),
        decreases sizes@.len() - i,
    {
        let m = &sizes[i];
        let name = match &m.display_name {
            Some(d) => Some(sanitize_name(d.as_str())),
            None => None,
        };
        out.push(PageSize { name, width: m.width, height: m.height });
        i = i + 1;
    }
    if out.len() == 0 {
        None
    } else {
        Some(out)
    }
}

/// The report of a snapshot that clients receive.
pub fn printer_capability(cap: &Capabilities) -> (r: PrinterCapability)
    ensures
        r.max_copies == cap.max_copies,
        orientations_reported(r.orientations, cap.orientations@),
        page_sizes_reported(r.page_sizes, cap.page_media_sizes@),
{
    PrinterCapability {
        max_copies: cap.max_copies,
        orientations: get_orientations(cap),
        page_sizes: get_page_sizes(cap),
    }
}

} // verus!
