//! Properties that tie the catalog, the capability report and the negotiator
//! together.
use vstd::prelude::*;
use crate::catalog::{names_device, sanitized};
use crate::model::{Capabilities, Orientation, PrintSettings};
use crate::negotiate::{
    NegotiationError, TicketPlan, acceptable, negotiated, offers_orientation, orientation_ok,
    page_matches,
};
use crate::report::{predefined, reported_name, reports};

verus! {

/// A request that asks only for what the snapshot reports: a predefined
/// orientation from the report, and a page size exactly as one option is
/// reported (sanitized name, width and height).
pub open spec fn asks_reported(cap: Capabilities, s: PrintSettings) -> bool {
    &&& match s.orientation {
        Some(o) => predefined(cap.orientations@).contains(o),
        None => true,
    }
    &&& match s.page_size {
        Some(p) => exists|k: int|
            0 <= k < cap.page_media_sizes@.len() && reports(p, #[trigger] cap.page_media_sizes@[k]),
        None => true,
    }
}

proof fn lemma_predefined_offered(opts: Seq<Option<Orientation>>, o: Orientation)
    requires
        predefined(opts).contains(o),
    ensures
        offers_orientation(opts, o),
    decreases opts.len(),
{
    if opts.len() > 0 {
        let rest = opts.drop_last();
        let last = opts.len() - 1;
        if opts[last] == Some(o) {
            assert(opts[last] == Some(o));
        } else {
            let k = choose|k: int| 0 <= k < predefined(opts).len() && predefined(opts)[k] == o;
            match opts.last() {
                Some(x) => {
                    assert(predefined(opts) == predefined(rest).push(x));
                    assert(k < predefined(rest).len());
                    assert(predefined(rest)[k] == o);
                },
                None => {},
            }
            assert(predefined(rest).contains(o));
            lemma_predefined_offered(rest, o);
            let i = choose|i: int| 0 <= i < rest.len() && #[trigger] rest[i] == Some(o);
            assert(opts[i] == Some(o));
        }
    }
}

/// Every name in the device listing resolves: some listed device carries it.
pub proof fn lemma_listed_names_resolve(devices: Seq<String>, listed: Seq<String>, i: int)
    requires
        listed.len() == devices.len(),
        forall|k: int| 0 <= k < listed.len() ==> #[trigger] listed[k]@ == sanitized(devices[k]@),
        0 <= i < listed.len(),
    ensures
        exists|j: int| 0 <= j < devices.len() && names_device(#[trigger] devices[j]@, listed[i]@),
{
    assert(names_device(devices[i]@, listed[i]@));
}

/// Asking a device for the orientation and page size that its own snapshot
/// reports is always accepted: negotiation yields a plan, never an error.
pub proof fn lemma_reported_settings_accepted(cap: Capabilities, s: PrintSettings)
    requires
        asks_reported(cap, s),
    ensures
        acceptable(cap, s),
        forall|r: Result<TicketPlan, NegotiationError>| #[trigger] negotiated(cap, s, r) ==> r is Ok,
{
    if let Some(o) = s.orientation {
        lemma_predefined_offered(cap.orientations@, o);
    }
    if let Some(p) = s.page_size {
        let k = choose|k: int|
            0 <= k < cap.page_media_sizes@.len() && reports(p, #[trigger] cap.page_media_sizes@[k]);
        assert(page_matches(cap.page_media_sizes@[k], p));
    }
}

/// An orientation that no option of the snapshot has is always rejected with
/// `NoSuchOrientation`; no other option is put in its place.
pub proof fn lemma_unoffered_orientation_rejected(
    cap: Capabilities,
    s: PrintSettings,
    r: Result<TicketPlan, NegotiationError>,
)
    requires
        s.orientation matches Some(o) && forall|i: int|
            0 <= i < cap.orientations@.len() ==> #[trigger] cap.orientations@[i] != Some(o),
        negotiated(cap, s, r),
    ensures
        r matches Err(NegotiationError::NoSuchOrientation),
{
}

/// A page size requested by a name that no option reports is rejected with
/// `NoSuchPageSize`, even where an option has the requested dimensions.
pub proof fn lemma_unknown_page_name_rejected(
    cap: Capabilities,
    s: PrintSettings,
    r: Result<TicketPlan, NegotiationError>,
)
    requires
        orientation_ok(cap, s),
        s.page_size matches Some(p) && p.name matches Some(n) && forall|k: int|
            0 <= k < cap.page_media_sizes@.len() ==> reported_name(
                #[trigger] cap.page_media_sizes@[k],
            ) != Some(n@),
        negotiated(cap, s, r),
    ensures
        r matches Err(NegotiationError::NoSuchPageSize),
{
}

/// A page size requested without a name is matched on exact width and
/// height only: the selected option has exactly those dimensions, and with
/// no such option the request is rejected with `NoSuchPageSize`.
pub proof fn lemma_unnamed_page_size_exact(
    cap: Capabilities,
    s: PrintSettings,
    r: Result<TicketPlan, NegotiationError>,
)
    requires
        orientation_ok(cap, s),
        s.page_size matches Some(p) && p.name is None,
        negotiated(cap, s, r),
    ensures
        (forall|k: int|
            0 <= k < cap.page_media_sizes@.len() ==> !(#[trigger] cap.page_media_sizes@[k].width
                == s.page_size->0.width && cap.page_media_sizes@[k].height
                == s.page_size->0.height)) ==> (r matches Err(NegotiationError::NoSuchPageSize)),
        r matches Ok(plan) ==> plan.page_media_size matches Some(k) && {
            &&& k < cap.page_media_sizes@.len()
            &&& cap.page_media_sizes@[k as int].width == s.page_size->0.width
            &&& cap.page_media_sizes@[k as int].height == s.page_size->0.height
        },
{
    let p = s.page_size->0;
    if forall|k: int|
        0 <= k < cap.page_media_sizes@.len() ==> !(#[trigger] cap.page_media_sizes@[k].width
            == p.width && cap.page_media_sizes@[k].height == p.height) {
        assert forall|k: int| 0 <= k < cap.page_media_sizes@.len() implies !page_matches(
            #[trigger] cap.page_media_sizes@[k],
            p,
        ) by {}
    }
}

} // verus!
