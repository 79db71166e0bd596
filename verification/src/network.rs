//! What the program computes around its two shell commands: the SSID list from
//! a scan's output, the connect command line, what to report of a connect
//! attempt, and the line saved for a network's credentials.
use vstd::prelude::*;
use vstd::utf8::{valid_utf8, decode_utf8};
use crate::text::{lines_trimmed, trimmed_lines, string_views};

verus! {

/// `String::from_utf8`: the bytes as text when they are valid UTF-8; the
/// error value is dropped.
#[verifier::external_body]
fn decode_utf8_bytes(bytes: Vec<u8>) -> (r: Option<String>)
    ensures
        r is Some <==> valid_utf8(bytes@),
        r matches Some(s) ==> s@ == decode_utf8(bytes@),
{
    String::from_utf8(bytes).ok()
}

/// What `String::from_utf8_lossy` makes of `bytes`: invalid sequences become
/// U+FFFD.
pub uninterp spec fn utf8_lossy(bytes: Seq<u8>) -> Seq<char>;

/// `String::from_utf8_lossy`, made owned. Its result is named `utf8_lossy`;
/// stated besides is only what std documents for valid input: the text is
/// then the decoded bytes unchanged. How invalid sequences are replaced is
/// left unsaid.
#[verifier::external_body]
fn decode_utf8_lossy(bytes: &Vec<u8>) -> (r: String)
    ensures
        r@ == utf8_lossy(bytes@),
        valid_utf8(bytes@) ==> r@ == decode_utf8(bytes@),
{
    String::from_utf8_lossy(bytes).into_owned()
}

/// The SSIDs that a scan reports: when the command succeeded and printed
/// valid UTF-8, each line of its output, trimmed; otherwise no list.
pub open spec fn scan_result(success: bool, stdout: Seq<u8>) -> Option<Seq<Seq<char>>> {
    if success && valid_utf8(stdout) {
        Some(trimmed_lines(decode_utf8(stdout)))
    } else {
        None
    }
}

/// The SSID list from the scan command's exit status and output. `None` when
/// the command failed or its output is not UTF-8: the caller then reports the
/// error and uses an empty list.
pub fn ssids_from_scan(success: bool, stdout: Vec<u8>) -> (r: Option<Vec<String>>)
    ensures
        r is Some <==> scan_result(success, stdout@) is Some,
        r matches Some(v) ==> Some(string_views(v@)) == scan_result(success, stdout@),
{
    if !success {
        return None;
    }
    match decode_utf8_bytes(stdout) {
        Some(text) => Some(lines_trimmed(text.as_str())),
        None => None,
    }
}

/// The command line that joins network `ssid` with `password`.
pub open spec fn connect_command_spec(ssid: Seq<char>, password: Seq<char>) -> Seq<char> {
    "sudo nmcli device wifi connect "@ + ssid + " password "@ + password
}

/// The shell command that connects to network `ssid` with `password`.
pub fn connect_command(ssid: &str, password: &str) -> (r: String)
    ensures
        r@ == connect_command_spec(ssid@, password@),
{
    let mut r = String::from_str("sudo nmcli device wifi connect ");
    r.append(ssid);
    r.append(" password ");
    r.append(password);
    r
}

/// What to report once the connect command has run.
pub enum ConnectReport {
    /// It succeeded; print what it wrote.
    Output(String),
    /// It succeeded, but its output is not UTF-8: print nothing.
    Quiet,
    /// It failed; print this message on the error stream.
    Failed(String),
}

/// The message printed when the connect command failed with `stderr`.
pub open spec fn failure_message(stderr: Seq<u8>) -> Seq<char> {
    "Command failed with error: "@ + utf8_lossy(stderr)
}

/// The report of a connect attempt, from its exit status and the bytes it
/// wrote to its output and error streams.
pub fn connect_report(success: bool, stdout: Vec<u8>, stderr: Vec<u8>) -> (r: ConnectReport)
    ensures
        success && valid_utf8(stdout@) ==> (r matches ConnectReport::Output(t) && t@
            == decode_utf8(stdout@)),
        success && !valid_utf8(stdout@) ==> r is Quiet,
        !success ==> (r matches ConnectReport::Failed(m) && m@ == failure_message(stderr@)),
        !success && valid_utf8(stderr@) ==> (r matches ConnectReport::Failed(m) && m@
            == "Command failed with error: "@ + decode_utf8(stderr@)),
{
    if success {
        match decode_utf8_bytes(stdout) {
            Some(text) => ConnectReport::Output(text),
            None => ConnectReport::Quiet,
        }
    } else {
        let detail = decode_utf8_lossy(&stderr);
        let mut m = String::from_str("Command failed with error: ");
        m.append(detail.as_str());
        ConnectReport::Failed(m)
    }
}

/// The line saved for a network's credentials.
pub open spec fn credential_record_spec(ssid: Seq<char>, password: Seq<char>) -> Seq<char> {
    ssid + ": "@ + password + "\n"@
}

/// The line that records `password` for network `ssid` in the password file.
pub fn credential_record(ssid: &str, password: &str) -> (r: String)
    ensures
        r@ == credential_record_spec(ssid@, password@),
{
    let mut r = String::from_str(ssid);
    r.append(": ");
    r.append(password);
    r.append("\n");
    r
}

} // verus!
