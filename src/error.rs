use vstd::prelude::*;

verus! {

/// Why a download, or one part of it, did not complete.
#[derive(Clone, Debug)]
pub enum DownloadError {
    /// The network request itself failed (connection, DNS, TLS).
    Transport(String),
    /// The server answered with a status outside 2xx for the given id or URL.
    HttpStatus { id: String, status: u16 },
    /// The response body did not have the expected shape.
    Decode(String),
    /// The artwork's type is neither multi-page (0) nor animated (2).
    UnsupportedArtworkType(u32),
    /// Creating a directory or writing a file failed.
    Filesystem(String),
}

/// Whether an HTTP status code means success (2xx).
pub open spec fn is_success(status: u16) -> bool {
    200 <= status < 300
}

/// Accepts a response to a request about `id` by its status alone: any status
/// outside 2xx is a failure that names the id and the status.
pub fn check_status(id: &str, status: u16) -> (r: Result<(), DownloadError>)
    ensures
        is_success(status) <==> r is Ok,
        !is_success(status) ==> (r matches Err(DownloadError::HttpStatus { id: i, status: s })
            && i@ == id@ && s == status),
{
    if 200 <= status && status < 300 {
        Ok(())
    } else {
        Err(DownloadError::HttpStatus { id: String::from_str(id), status })
    }
}

} // verus!
