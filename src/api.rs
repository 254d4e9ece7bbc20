//! The request entry points and the uniform response envelope.
use vstd::prelude::*;
use crate::catalog::{list_printer_names, sanitized};
use crate::model::{Capabilities, PrintSettings, PrinterCapability};
use crate::negotiate::NegotiationError;
use crate::report::{orientations_reported, page_sizes_reported, printer_capability};

verus! {

/// The uniform envelope: `code` 0 with `data` on success, `code` 1 with
/// `msg` on failure.
#[derive(Clone, Debug)]
pub struct Response<T> {
    pub code: i32,
    pub msg: Option<String>,
    pub data: Option<T>,
}

impl<T> Response<T> {
    /// The success envelope carrying `data`.
    pub fn ok(data: T) -> (r: Response<T>)
        ensures
            r.code == 0,
            r.msg is None,
            r.data == Some(data),
    {
        Response { code: 0, msg: None, data: Some(data) }
    }

    /// The failure envelope carrying `msg`.
    pub fn err(msg: String) -> (r: Response<T>)
        ensures
            r.code == 1,
            r.msg == Some(msg),
            r.data is None,
    {
        Response { code: 1, msg: Some(msg), data: None }
    }

    /// `self` is the failure envelope with the message `m`.
    pub open spec fn is_err_with(self, m: Seq<char>) -> bool {
        &&& self.code == 1
        &&& self.msg matches Some(s) && s@ == m
        &&& self.data is None
    }
}

/// Why no stored default settings could be loaded.
#[derive(Clone, Copy, Debug, PartialEq, Eq, Structural)]
pub enum LoadError {
    NotFound,
    ParseFailed,
}

/// The client-facing message of each error.
pub open spec fn error_message(e: NegotiationError) -> Seq<char> {
    match e {
        NegotiationError::NoSuchPrinter => "No such printer"@,
        NegotiationError::DriverQueryFailed(d) => "Failed to query printer capabilities: "@ + d@,
        NegotiationError::NoSuchOrientation => "No such orientation"@,
        NegotiationError::NoSuchPageSize => "No such page size"@,
        NegotiationError::TicketBuildFailed(d) => "Failed to build print ticket: "@ + d@,
        NegotiationError::PrintSubmissionFailed(d) => "Failed to print: "@ + d@,
    }
}

impl NegotiationError {
    /// The message a client receives for this error.
    pub fn message(&self) -> (r: String)
        ensures
            r@ == error_message(*self),
    {
        match self {
            NegotiationError::NoSuchPrinter => String::from_str("No such printer"),
            NegotiationError::DriverQueryFailed(d) => String::from_str(
                "Failed to query printer capabilities: ",
            ).concat(d.as_str()),
            NegotiationError::NoSuchOrientation => String::from_str("No such orientation"),
            NegotiationError::NoSuchPageSize => String::from_str("No such page size"),
            NegotiationError::TicketBuildFailed(d) => String::from_str(
                "Failed to build print ticket: ",
            ).concat(d.as_str()),
            NegotiationError::PrintSubmissionFailed(d) => String::from_str(
                "Failed to print: ",
            ).concat(d.as_str()),
        }
    }
}

/// The print service's request handlers.
pub struct Api;

impl Api {
    /// Lists the sanitized names of the devices; a failed enumeration lists
    /// none.
    pub fn get_printers(&self, listing: Option<Vec<String>>) -> (r: Response<Vec<String>>)
        ensures
            r.code == 0,
            r.msg is None,
            r.data matches Some(v) && match listing {
                Some(devices) => v@.len() == devices@.len() && forall|i: int|
                    0 <= i < v@.len() ==> #[trigger] v@[i]@ == sanitized(devices@[i]@),
                None => v@.len() == 0,
            },
    {
        Response::ok(list_printer_names(listing))
    }

    /// Reports a device's capabilities. `lookup` is `None` when no listed
    /// device has the requested name, and otherwise the outcome of fetching
    /// that device's snapshot; a failed fetch is a server fault.
    pub fn get_printer(&self, lookup: Option<Result<Capabilities, String>>) -> (r: Result<
        Response<PrinterCapability>,
        NegotiationError,
    >)
        ensures
            match lookup {
                None => r matches Ok(resp) && resp.is_err_with("No such printer"@),
                Some(Err(d)) => r matches Err(NegotiationError::DriverQueryFailed(m)) && m@ == d@,
                Some(Ok(cap)) => r matches Ok(resp) && {
                    &&& resp.code == 0
                    &&& resp.msg is None
                    &&& resp.data matches Some(pc) && {
                        &&& pc.max_copies == cap.max_copies
                        &&& orientations_reported(pc.orientations, cap.orientations@)
                        &&& page_sizes_reported(pc.page_sizes, cap.page_media_sizes@)
                    }
                },
            },
    {
        match lookup {
            None => {
                let e = NegotiationError::NoSuchPrinter;
                Ok(Response::err(e.message()))
            },
            Some(Err(d)) => Err(NegotiationError::DriverQueryFailed(d)),
            Some(Ok(cap)) => Ok(Response::ok(printer_capability(&cap))),
        }
    }

    /// Answers with the stored default settings. A missing file and a
    /// malformed one give the very same answer.
    pub fn get_default_settings(&self, loaded: Result<PrintSettings, LoadError>) -> (r: Response<
        PrintSettings,
    >)
        ensures
            match loaded {
                Ok(s) => r.code == 0 && r.msg is None && r.data == Some(s),
                Err(_) => r.is_err_with("No default settings"@),
            },
    {
        match loaded {
            Ok(s) => Response::ok(s),
            Err(_) => Response::err(String::from_str("No default settings")),
        }
    }

    /// Answers a print request from its outcome.
    pub fn print(&self, outcome: Result<(), NegotiationError>) -> (r: Response<String>)
        ensures
            match outcome {
                Ok(_) => {
                    &&& r.code == 0
                    &&& r.msg is None
                    &&& r.data matches Some(d) && d@ == "ok"@
                },
                Err(e) => r.is_err_with(error_message(e)),
            },
    {
        match outcome {
            Ok(_) => Response::ok(String::from_str("ok")),
            Err(e) => Response::err(e.message()),
        }
    }
}

} // verus!
