//! The prototype that tried out file uploads and Google login through
//! server functions before the screen and admin page were rewritten.

use vstd::prelude::*;
use vstd::utf8::encode_utf8;

use crate::sl::joined;
use crate::text::{decimal, decimal_string};

verus! {

/// A file received by the prototype's upload: its name and its size in
/// bytes.
pub struct UploadedFile {
    pub file_name: String,
    pub size: usize,
}

/// How one received file is reported.
pub open spec fn file_report(f: UploadedFile) -> Seq<char> {
    f.file_name@ + " ("@ + decimal(f.size as nat) + " bytes)"@
}

/// The prototype's answer to an upload: `received: ` and the files' names
/// and sizes, separated by `", "`.
pub fn upload_slide(files: &[UploadedFile]) -> (res: String)
    ensures
        res@ == "received: "@ + joined(files@.map_values(|f: UploadedFile| file_report(f))),
{
    let mut out = String::from_str("received: ");
    let ghost reports = files@.map_values(|f: UploadedFile| file_report(f));
    let n = files.len();
    let mut i: usize = 0;
    while i < n
        invariant
            n == files@.len(),
            i <= n,
            reports == files@.map_values(|f: UploadedFile| file_report(f)),
            out@ == "received: "@ + joined(reports.take(i as int)),
        decreases n - i,
    {
        assert(reports.take(i + 1).drop_last() =~= reports.take(i as int));
        if i > 0 {
            out.append(", ");
        }
        let f = &files[i];
        out.append(f.file_name.as_str());
        out.append(" (");
        let size = decimal_string(f.size as u64);
        out.append(size.as_str());
        out.append(" bytes)");
        assert(reports.take(i + 1).last() == file_report(files@[i as int]));
        i = i + 1;
    }
    assert(reports.take(n as int) =~= reports);
    out
}

/// The prototype's stand-in for checking a Google credential: any
/// non-empty credential is accepted and its length in bytes reported.
pub fn verify_google_credential(credential: &str) -> (res: Result<String, String>)
    ensures
        credential@.len() == 0 ==> (res matches Err(e) && e@ == "empty credential"@),
        credential@.len() > 0 ==> (res matches Ok(m) && m@ == "verified credential of length "@ + decimal(
            (encode_utf8(credential@).len() as usize) as nat,
        )),
{
    if credential.is_empty() {
        return Err(String::from_str("empty credential"));
    }
    let len = credential.len();
    let mut msg = String::from_str("verified credential of length ");
    let digits = decimal_string(len as u64);
    msg.append(digits.as_str());
    Ok(msg)
}

/// The prototype's login status before any credential arrived.
pub fn spike_login_waiting() -> (res: String)
    ensures
        res@ == "waiting for credential..."@,
{
    String::from_str("waiting for credential...")
}

/// The prototype's login status once a credential arrived and is checked.
pub fn spike_login_verifying() -> (res: String)
    ensures
        res@ == "verifying..."@,
{
    String::from_str("verifying...")
}

/// The prototype's login status after the check: the server's message, or
/// the error (as displayed) after `"error: "`.
pub fn spike_login_status(verified: Result<String, String>) -> (res: String)
    ensures
        verified matches Ok(m) ==> res == m,
        verified matches Err(e) ==> res@ == "error: "@ + e@,
{
    match verified {
        Ok(m) => m,
        Err(e) => String::from_str("error: ").concat(e.as_str()),
    }
}

} // verus!
