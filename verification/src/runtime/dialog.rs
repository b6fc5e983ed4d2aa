//! How errors of the runtime are shown.

use crate::runtime::platform::Platform;
use vstd::prelude::*;

verus! {

/// How an error is shown.
#[derive(Debug)]
pub enum ErrorNotice {
    /// In a dialog of the desktop.
    Dialog(String),
    /// In the log.
    Log(String),
}

/// How an error is shown: in a dialog on Linux, and in the log elsewhere.
pub fn error(platform: Platform, err: &str) -> (notice: ErrorNotice)
    ensures
        platform == Platform::Linux ==> (notice matches ErrorNotice::Dialog(text) && text@
            == err@),
        platform != Platform::Linux ==> (notice matches ErrorNotice::Log(text) && text@
            == "Runtime error: "@ + err@),
{
    if platform == Platform::Linux {
        ErrorNotice::Dialog(err.to_string())
    } else {
        let mut text = "Runtime error: ".to_string();
        text.append(err);
        ErrorNotice::Log(text)
    }
}

/// An error is shown with its text, in a dialog on Linux, and in the log with a word on where it
/// comes from elsewhere.
pub proof fn lemma_errors_are_shown(platform: Platform, err: &str, notice: ErrorNotice)
    requires
        call_ensures(error, (platform, err), notice),
    ensures
        notice is Dialog <==> platform == Platform::Linux,
        notice matches ErrorNotice::Dialog(text) ==> text@ == err@,
        notice matches ErrorNotice::Log(text) ==> text@ == "Runtime error: "@ + err@,
{
}

} // verus!
