//! The outcome of probing a target.

use vstd::prelude::*;

verus! {

/// What a probe round found: the HTTP status code, whether the target counts
/// as healthy, and the text of a probe-level failure (empty where the target
/// answered).
#[derive(Debug, PartialEq, Eq)]
pub struct ServerStatus {
    pub status_code: u16,
    pub overall_ok: bool,
    pub exec_error_msg: String,
}

pub struct ServerStatusView {
    pub status_code: u16,
    pub overall_ok: bool,
    pub exec_error_msg: Seq<char>,
}

impl View for ServerStatus {
    type V = ServerStatusView;

    open spec fn view(&self) -> ServerStatusView {
        ServerStatusView {
            status_code: self.status_code,
            overall_ok: self.overall_ok,
            exec_error_msg: self.exec_error_msg@,
        }
    }
}

/// The least status code that counts as healthy.
pub const FIRST_HEALTHY_CODE: u16 = 200;

/// The greatest status code that counts as healthy.
pub const LAST_HEALTHY_CODE: u16 = 299;

/// Whether a status code says that the request succeeded: the codes from 200
/// to 299 do.
pub open spec fn code_is_healthy(code: u16) -> bool {
    FIRST_HEALTHY_CODE <= code <= LAST_HEALTHY_CODE
}

/// What precedes the error text in the status of a probe that could not be
/// carried out.
pub const PROBE_ERROR_LEAD: &'static str = "Exception occured: ";

impl ServerStatusView {
    /// The status before any probe has answered.
    pub open spec fn unknown() -> ServerStatusView {
        ServerStatusView { status_code: 0, overall_ok: false, exec_error_msg: Seq::empty() }
    }

    /// The status of a target that answered with `code`.
    pub open spec fn answered(code: u16) -> ServerStatusView {
        ServerStatusView {
            status_code: code,
            overall_ok: code_is_healthy(code),
            exec_error_msg: Seq::empty(),
        }
    }

    /// The status of a target whose probe failed with `error` (a timeout, a
    /// name that does not resolve, a refused connection).
    pub open spec fn unreachable(error: Seq<char>) -> ServerStatusView {
        ServerStatusView {
            status_code: 0,
            overall_ok: false,
            exec_error_msg: PROBE_ERROR_LEAD@ + error,
        }
    }
}

impl ServerStatus {
    /// The status before any probe has answered: not healthy, code 0, no text.
    pub fn unknown() -> (status: ServerStatus)
        ensures
            status@ == ServerStatusView::unknown(),
    {
        ServerStatus { status_code: 0, overall_ok: false, exec_error_msg: String::new() }
    }

    /// The status of a target that answered with `code`: healthy exactly for
    /// the codes from 200 to 299.
    pub fn answered(code: u16) -> (status: ServerStatus)
        ensures
            status@ == ServerStatusView::answered(code),
    {
        ServerStatus {
            status_code: code,
            overall_ok: FIRST_HEALTHY_CODE <= code && code <= LAST_HEALTHY_CODE,
            exec_error_msg: String::new(),
        }
    }

    /// The status of a target whose probe failed with `error`: not healthy,
    /// code 0, and the error text behind a fixed lead.
    pub fn unreachable(error: &str) -> (status: ServerStatus)
        ensures
            status@ == ServerStatusView::unreachable(error@),
    {
        let mut text = PROBE_ERROR_LEAD.to_owned();
        text.append(error);
        ServerStatus { status_code: 0, overall_ok: false, exec_error_msg: text }
    }
}

impl Clone for ServerStatus {
    fn clone(&self) -> (copy: ServerStatus)
        ensures
            copy@ == self@,
    {
        ServerStatus {
            status_code: self.status_code,
            overall_ok: self.overall_ok,
            exec_error_msg: self.exec_error_msg.clone(),
        }
    }
}

} // verus!
