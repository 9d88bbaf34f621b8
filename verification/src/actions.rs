//! What a remediation step leaves behind for the next notification.

use vstd::prelude::*;
use crate::config::{Action, ActionTypeSpec, ActionTypeSpecView};
use crate::text::{push_signed_decimal, signed_decimal};

verus! {

pub const SCRIPT_OUTPUT_LEAD: &'static str = "script output: ";

pub const SCRIPT_ERROR_LEAD: &'static str = "error when running script: ";

/// The report on one run of a remediation step: the captured output, or the
/// reason why the step could not be run, each behind a lead that names the
/// mechanism.
pub open spec fn action_report(
    mechanism: ActionTypeSpecView,
    outcome: Result<Seq<char>, Seq<char>>,
) -> Seq<char> {
    match mechanism {
        ActionTypeSpecView::RunScript { .. } => match outcome {
            Ok(output) => SCRIPT_OUTPUT_LEAD@ + output,
            Err(error) => SCRIPT_ERROR_LEAD@ + error,
        },
    }
}

/// The outcome of a run as mathematical values.
pub open spec fn outcome_view(outcome: Result<String, String>) -> Result<Seq<char>, Seq<char>> {
    match outcome {
        Ok(output) => Ok(output@),
        Err(error) => Err(error@),
    }
}

/// Renders the report on one run of `action` from what the run gave: its
/// captured output, or the reason why it could not be run to completion.
/// The text is not interpreted.
pub fn run_spefice_action(action: &Action, outcome: &Result<String, String>) -> (report: String)
    ensures
        report@ == action_report(action@.typespecific, outcome_view(*outcome)),
{
    match &action.typespecific {
        ActionTypeSpec::RunScript { .. } => match outcome {
            Ok(output) => {
                let mut report = SCRIPT_OUTPUT_LEAD.to_owned();
                report.append(output.as_str());
                report
            },
            Err(error) => {
                let mut report = SCRIPT_ERROR_LEAD.to_owned();
                report.append(error.as_str());
                report
            },
        },
    }
}

pub const EXIT_STATUS_LEAD: &'static str = "script exited with status ";

pub const NO_EXIT_STATUS: &'static str = "script was ended before it could exit";

/// Why a command that ran to its end counts as failed, going by its exit
/// status: not at all where it exited with status 0; for any other status,
/// and where it was ended without one, a description.
pub open spec fn exit_failure_text(exit_code: Option<i32>) -> Option<Seq<char>> {
    match exit_code {
        Some(code) => if code == 0 {
            None
        } else {
            Some(EXIT_STATUS_LEAD@ + signed_decimal(code as int))
        },
        None => Some(NO_EXIT_STATUS@),
    }
}

/// Judges a command that ran to its end by its exit status: `None` where it
/// exited with status 0, else the description of the failure that the next
/// notification is to carry.
pub fn exit_failure(exit_code: Option<i32>) -> (failure: Option<String>)
    ensures
        failure.deep_view() == exit_failure_text(exit_code),
{
    match exit_code {
        Some(code) => {
            if code == 0 {
                None
            } else {
                let mut text = EXIT_STATUS_LEAD.to_owned();
                push_signed_decimal(&mut text, code);
                Some(text)
            }
        },
        None => Some(NO_EXIT_STATUS.to_owned()),
    }
}

} // verus!
