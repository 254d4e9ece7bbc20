//! Device Catalog: display-name sanitation and exact device-name resolution.
use vstd::prelude::*;

verus! {

/// Every non-overlapping occurrence of `pat` in `s`, scanned from the left,
/// replaced by `rep`.
pub open spec fn replaced(s: Seq<char>, pat: Seq<char>, rep: Seq<char>) -> Seq<char>
    decreases s.len(),
{
    if s.len() == 0 {
        s
    } else if 0 < pat.len() <= s.len() && s.subrange(0, pat.len() as int) == pat {
        rep + replaced(s.subrange(pat.len() as int, s.len() as int), pat, rep)
    } else {
        seq![s[0]] + replaced(s.subrange(1, s.len() as int), pat, rep)
    }
}

/// The garbled unit string that some vendor drivers report in display names.
pub open spec fn garbled_unit() -> Seq<char> {
    "&#xEB;米"@
}

/// The localized unit string that the garbled one stands for.
pub open spec fn proper_unit() -> Seq<char> {
    "毫米"@
}

/// A driver-reported display name as it is exposed and compared.
pub open spec fn sanitized(s: Seq<char>) -> Seq<char> {
    replaced(s, garbled_unit(), proper_unit())
}

/// Relies on `str::replace`: every non-overlapping match of `from`, found
/// from the left, is replaced by `to`.
#[verifier::external_body]
fn replace_all(s: &str, from: &str, to: &str) -> (r: String)
    requires
        from@.len() > 0,
    ensures
        r@ == replaced(s@, from@, to@),
{
    s.replace(from, to)
}

/// Repairs the known driver encoding defect in a display name.
pub fn sanitize_name(name: &str) -> (r: String)
    ensures
        r@ == sanitized(name@),
{
    proof {
        reveal_strlit("&#xEB;米");
    }
    replace_all(name, "&#xEB;米", "毫米")
}

/// The device names as they are listed to clients: each driver name sanitized,
/// in enumeration order. A failed enumeration lists no device.
pub fn list_printer_names(listing: Option<Vec<String>>) -> (r: Vec<String>)
    ensures
        listing is None ==> r@.len() == 0,
        listing matches Some(devices) ==> {
            &&& r@.len() == devices@.len()
            &&& forall|i: int| 0 <= i < r@.len() ==> #[trigger] r@[i]@ == sanitized(devices@[i]@)
        },
{
    let mut out: Vec<String> = Vec::new();
    match listing {
        None => out,
        Some(devices) => {
            let n = devices.len();
            let mut i: usize = 0;
            while i < n
                invariant
                    n == devices@.len(),
                    i <= n,
                    out@.len() == i,
                    forall|k: int| 0 <= k < i ==> #[trigger] out@[k]@ == sanitized(devices@[k]@),
                decreases n - i,
            {
                out.push(sanitize_name(devices[i].as_str()));
                i = i + 1;
            }
            out
        },
    }
}

/// Whether a driver-reported device name, once sanitized, is exactly `name`.
pub open spec fn names_device(device: Seq<char>, name: Seq<char>) -> bool {
    sanitized(device) == name
}

/// Finds the first device whose sanitized name equals `name` exactly.
pub fn find_printer(devices: &Vec<String>, name: &String) -> (r: Option<usize>)
    ensures
        match r {
            Some(i) => {
                &&& i < devices@.len()
                &&& names_device(devices@[i as int]@, name@)
                &&& forall|j: int| 0 <= j < i ==> !names_device(#[trigger] devices@[j]@, name@)
            },
            None => forall|j: int|
                0 <= j < devices@.len() ==> !names_device(#[trigger] devices@[j]@, name@),
        },
{
    let mut i: usize = 0;
    while i < devices.len()
        invariant
            i <= devices@.len(),
            forall|j: int| 0 <= j < i ==> !names_device(#[trigger] devices@[j]@, name@),
        decreases devices@.len() - i,
    {
        let shown = sanitize_name(devices[i].as_str());
        if shown == *name {
            return Some(i);
        }
        i = i + 1;
    }
    None
}

} // verus!
