use direct_printing::api::{Api, LoadError};
use direct_printing::catalog::{find_printer, list_printer_names, sanitize_name};
use direct_printing::model::{
    Capabilities, MediaSizeOption, Orientation, PageSize, PrintSettings,
};
use direct_printing::negotiate::{
    negotiate, plan_ticket, resolve_printer, select_orientation, select_page_size,
    NegotiationError, TicketPlan,
};
use direct_printing::report::{get_orientations, get_page_sizes, printer_capability};

fn media(name: Option<&str>, width: u32, height: u32) -> MediaSizeOption {
    MediaSizeOption { display_name: name.map(|n| n.to_string()), width, height }
}

fn laserjet() -> Capabilities {
    Capabilities {
        max_copies: Some(99),
        orientations: vec![Some(Orientation::Portrait), Some(Orientation::Landscape)],
        page_media_sizes: vec![media(Some("A4"), 210000, 297000)],
    }
}

fn settings(orientation: Option<Orientation>, page_size: Option<PageSize>) -> PrintSettings {
    PrintSettings { printer: "HP LaserJet".to_string(), copies: None, orientation, page_size }
}

fn named(name: &str) -> PageSize {
    PageSize { name: Some(name.to_string()), width: 0, height: 0 }
}

fn dims(width: u32, height: u32) -> PageSize {
    PageSize { name: None, width, height }
}

#[test]
fn laserjet_landscape_a4_builds() {
    let devices = vec!["HP LaserJet".to_string()];
    let idx = resolve_printer(&devices, &"HP LaserJet".to_string());
    assert!(matches!(idx, Ok(0)));
    let s = settings(Some(Orientation::Landscape), Some(named("A4")));
    let plan = plan_ticket(&laserjet(), &s).unwrap();
    assert_eq!(plan, TicketPlan { copies: None, orientation: Some(1), page_media_size: Some(0) });
}

#[test]
fn laserjet_reverse_portrait_rejected() {
    let s = settings(Some(Orientation::ReversePortrait), None);
    let r = negotiate(Ok(laserjet()), &s);
    assert!(matches!(r, Err(NegotiationError::NoSuchOrientation)));
    let resp = Api.print(r.map(|_| ()));
    assert_eq!(resp.code, 1);
    assert_eq!(resp.msg.as_deref(), Some("No such orientation"));
    assert!(resp.data.is_none());
}

#[test]
fn nonexistent_printer_rejected() {
    let devices = vec!["HP LaserJet".to_string()];
    let r = resolve_printer(&devices, &"Nonexistent".to_string());
    assert!(matches!(r, Err(NegotiationError::NoSuchPrinter)));
    let resp = Api.print(r.map(|_| ()));
    assert_eq!(resp.code, 1);
    assert_eq!(resp.msg.as_deref(), Some("No such printer"));
    assert!(resp.data.is_none());
}

#[test]
fn printer_name_match_is_exact() {
    let devices = vec!["HP LaserJet".to_string(), "hp laserjet".to_string()];
    assert_eq!(find_printer(&devices, &"hp laserjet".to_string()), Some(1));
    assert_eq!(find_printer(&devices, &"HP LaserJet ".to_string()), None);
    assert_eq!(find_printer(&devices, &"HP".to_string()), None);
    assert_eq!(find_printer(&Vec::new(), &"HP".to_string()), None);
}

#[test]
fn printer_resolved_by_sanitized_name() {
    let devices = vec!["Other".to_string(), "GP 80&#xEB;米".to_string()];
    assert_eq!(find_printer(&devices, &"GP 80毫米".to_string()), Some(1));
    assert_eq!(find_printer(&devices, &"GP 80&#xEB;米".to_string()), None);
}

#[test]
fn sanitize_repairs_garbled_unit() {
    assert_eq!(sanitize_name("A4 210&#xEB;米"), "A4 210毫米");
    assert_eq!(sanitize_name("&#xEB;米x&#xEB;米"), "毫米x毫米");
    assert_eq!(sanitize_name("&#xEB;"), "&#xEB;");
    assert_eq!(sanitize_name(""), "");
    assert_eq!(sanitize_name("Letter"), "Letter");
}

#[test]
fn listing_is_sanitized() {
    let listed = list_printer_names(Some(vec!["A".to_string(), "B&#xEB;米".to_string()]));
    assert_eq!(listed, vec!["A".to_string(), "B毫米".to_string()]);
    assert!(list_printer_names(None).is_empty());
    let resp = Api.get_printers(Some(vec!["Q&#xEB;米".to_string()]));
    assert_eq!(resp.code, 0);
    assert!(resp.msg.is_none());
    assert_eq!(resp.data, Some(vec!["Q毫米".to_string()]));
    assert_eq!(Api.get_printers(None).data, Some(Vec::new()));
}

#[test]
fn unoffered_orientation_never_substituted() {
    let cap = Capabilities {
        max_copies: None,
        orientations: vec![None, Some(Orientation::Portrait), None],
        page_media_sizes: vec![],
    };
    for o in [Orientation::Landscape, Orientation::ReversePortrait, Orientation::ReverseLandscape] {
        let r = plan_ticket(&cap, &settings(Some(o), None));
        assert!(matches!(r, Err(NegotiationError::NoSuchOrientation)));
    }
    let ok = plan_ticket(&cap, &settings(Some(Orientation::Portrait), None)).unwrap();
    assert_eq!(ok.orientation, Some(1));
}

#[test]
fn orientation_checked_before_page_size() {
    let s = settings(Some(Orientation::ReverseLandscape), Some(named("Nope")));
    assert!(matches!(plan_ticket(&laserjet(), &s), Err(NegotiationError::NoSuchOrientation)));
}

#[test]
fn page_name_never_falls_back_to_dimensions() {
    let req = PageSize { name: Some("Letter".to_string()), width: 210000, height: 297000 };
    let r = plan_ticket(&laserjet(), &settings(None, Some(req)));
    assert!(matches!(r, Err(NegotiationError::NoSuchPageSize)));
}

#[test]
fn page_name_match_ignores_dimensions() {
    let req = PageSize { name: Some("A4".to_string()), width: 1, height: 2 };
    let plan = plan_ticket(&laserjet(), &settings(None, Some(req))).unwrap();
    assert_eq!(plan.page_media_size, Some(0));
}

#[test]
fn page_name_match_uses_sanitized_driver_name() {
    let cap = Capabilities {
        max_copies: None,
        orientations: vec![],
        page_media_sizes: vec![media(None, 1, 1), media(Some("80&#xEB;米 x 60&#xEB;米"), 80000, 60000)],
    };
    let plan = plan_ticket(&cap, &settings(None, Some(named("80毫米 x 60毫米")))).unwrap();
    assert_eq!(plan.page_media_size, Some(1));
}

#[test]
fn unnamed_page_size_matches_exact_dimensions() {
    let cap = laserjet();
    let plan = plan_ticket(&cap, &settings(None, Some(dims(210000, 297000)))).unwrap();
    assert_eq!(plan.page_media_size, Some(0));
    for (w, h) in [(210001, 297000), (209999, 297000), (210000, 297001), (210000, 296999)] {
        let r = plan_ticket(&cap, &settings(None, Some(dims(w, h))));
        assert!(matches!(r, Err(NegotiationError::NoSuchPageSize)));
    }
}

#[test]
fn first_matching_option_is_selected() {
    let opts = vec![None, Some(Orientation::Landscape), Some(Orientation::Landscape)];
    assert_eq!(select_orientation(&opts, Orientation::Landscape), Some(1));
    assert_eq!(select_orientation(&opts, Orientation::Portrait), None);
    let sizes = vec![media(Some("B5"), 1, 2), media(None, 3, 4), media(Some("C"), 3, 4)];
    assert_eq!(select_page_size(&sizes, &dims(3, 4)), Some(1));
    assert_eq!(select_page_size(&sizes, &named("C")), Some(2));
    assert_eq!(select_page_size(&sizes, &named("D")), None);
}

#[test]
fn copies_pass_through_unchecked() {
    let mut s = settings(None, None);
    s.copies = Some(500);
    let plan = plan_ticket(&laserjet(), &s).unwrap();
    assert_eq!(plan, TicketPlan { copies: Some(500), orientation: None, page_media_size: None });
}

#[test]
fn failed_capability_fetch_is_reported() {
    let r = negotiate(Err("driver gone".to_string()), &settings(None, None));
    match r {
        Err(NegotiationError::DriverQueryFailed(d)) => assert_eq!(d, "driver gone"),
        _ => panic!("expected a driver query failure"),
    }
}

#[test]
fn reported_options_round_trip() {
    let cap = Capabilities {
        max_copies: None,
        orientations: vec![
            None,
            Some(Orientation::ReverseLandscape),
            Some(Orientation::Portrait),
        ],
        page_media_sizes: vec![
            media(Some("A5"), 148000, 210000),
            media(None, 100000, 150000),
            media(Some("76&#xEB;米"), 76000, 100000),
        ],
    };
    let devices = vec!["Zebra".to_string(), "GP&#xEB;米".to_string()];
    for name in list_printer_names(Some(devices.clone())) {
        assert!(resolve_printer(&devices, &name).is_ok());
    }
    let oris = get_orientations(&cap).unwrap();
    assert_eq!(oris, vec![Orientation::ReverseLandscape, Orientation::Portrait]);
    let pages = get_page_sizes(&cap).unwrap();
    assert_eq!(pages[2].name.as_deref(), Some("76毫米"));
    for o in &oris {
        for p in &pages {
            let s = settings(Some(*o), Some(p.clone()));
            assert!(plan_ticket(&cap, &s).is_ok());
        }
    }
}

#[test]
fn capability_report_shape() {
    let cap = Capabilities { max_copies: None, orientations: vec![None], page_media_sizes: vec![] };
    let pc = printer_capability(&cap);
    assert!(pc.max_copies.is_none());
    assert!(pc.orientations.is_none());
    assert!(pc.page_sizes.is_none());
    let pc = printer_capability(&laserjet());
    assert_eq!(pc.max_copies, Some(99));
    assert_eq!(pc.orientations, Some(vec![Orientation::Portrait, Orientation::Landscape]));
    let sizes = pc.page_sizes.unwrap();
    assert_eq!(sizes.len(), 1);
    assert_eq!((sizes[0].name.as_deref(), sizes[0].width, sizes[0].height), (Some("A4"), 210000, 297000));
}

#[test]
fn get_printer_outcomes() {
    let resp = Api.get_printer(None).unwrap();
    assert_eq!(resp.code, 1);
    assert_eq!(resp.msg.as_deref(), Some("No such printer"));
    assert!(resp.data.is_none());
    match Api.get_printer(Some(Err("bad xml".to_string()))) {
        Err(NegotiationError::DriverQueryFailed(d)) => assert_eq!(d, "bad xml"),
        _ => panic!("expected a driver query failure"),
    }
    let resp = Api.get_printer(Some(Ok(laserjet()))).unwrap();
    assert_eq!(resp.code, 0);
    assert!(resp.msg.is_none());
    assert_eq!(resp.data.unwrap().max_copies, Some(99));
}

#[test]
fn missing_and_malformed_defaults_look_the_same() {
    let missing = Api.get_default_settings(Err(LoadError::NotFound));
    let malformed = Api.get_default_settings(Err(LoadError::ParseFailed));
    assert_eq!(missing.code, 1);
    assert_eq!(missing.msg.as_deref(), Some("No default settings"));
    assert!(missing.data.is_none());
    assert_eq!((missing.code, missing.msg), (malformed.code, malformed.msg));
    assert!(malformed.data.is_none());
    let found = Api.get_default_settings(Ok(settings(Some(Orientation::Portrait), None)));
    assert_eq!(found.code, 0);
    assert_eq!(found.data.unwrap().printer, "HP LaserJet");
}

#[test]
fn print_success_and_error_messages() {
    let ok = Api.print(Ok(()));
    assert_eq!((ok.code, ok.msg, ok.data), (0, None, Some("ok".to_string())));
    let cases = [
        (NegotiationError::NoSuchPrinter, "No such printer"),
        (NegotiationError::NoSuchOrientation, "No such orientation"),
        (NegotiationError::NoSuchPageSize, "No such page size"),
        (NegotiationError::DriverQueryFailed("x".to_string()), "Failed to query printer capabilities: x"),
        (NegotiationError::TicketBuildFailed("y".to_string()), "Failed to build print ticket: y"),
        (NegotiationError::PrintSubmissionFailed("z".to_string()), "Failed to print: z"),
    ];
    for (e, m) in cases {
        assert_eq!(e.message(), m);
        let resp = Api.print(Err(e));
        assert_eq!(resp.code, 1);
        assert_eq!(resp.msg.as_deref(), Some(m));
    }
}
