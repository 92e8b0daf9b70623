//! Settings read once at startup and shared, unchanged, by every request.
use vstd::prelude::*;

verus! {

/// The service's settings.
pub struct AppConfig {
    /// Directory that uploads are written to and served from.
    pub storage_path: String,
    /// Port the server listens on.
    pub port: u16,
    /// Whether public URLs use `https`; the service itself does not terminate TLS.
    pub tls: bool,
}

/// The scheme of public URLs under a given TLS setting.
pub open spec fn scheme_of(tls: bool) -> Seq<char> {
    if tls {
        seq!['h', 't', 't', 'p', 's']
    } else {
        seq!['h', 't', 't', 'p']
    }
}

/// Scheme of the public URLs handed back after an upload.
pub fn url_scheme(tls: bool) -> (r: &'static str)
    ensures
        r@ == scheme_of(tls),
{
    proof {
        reveal_strlit("https");
        reveal_strlit("http");
    }
    if tls {
        let r = "https";
        assert(r@ =~= scheme_of(tls));
        r
    } else {
        let r = "http";
        assert(r@ =~= scheme_of(tls));
        r
    }
}

/// What an attempt to create the storage directory at startup came to.
#[derive(Clone, Copy, Debug, PartialEq, Eq, Structural)]
pub enum DirCreation {
    Created,
    AlreadyExists,
    Failed,
}

/// Whether the service can start: the directory was created or was already
/// there; any other failure stops startup.
pub fn storage_ready(c: DirCreation) -> (r: bool)
    ensures
        r == (c != DirCreation::Failed),
{
    match c {
        DirCreation::Created => true,
        DirCreation::AlreadyExists => true,
        DirCreation::Failed => false,
    }
}

} // verus!
