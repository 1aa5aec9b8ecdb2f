//! Process-wide configuration shared by every connection handler.
use vstd::prelude::*;

verus! {

/// Read-only server configuration: the optional root directory under which
/// the file route serves, held as the bytes of its path. `None` disables the
/// file route.
#[derive(Debug, Clone)]
pub struct ServerContext {
    pub host_files_path: Option<Vec<u8>>,
}

impl View for ServerContext {
    type V = Option<Seq<u8>>;

    open spec fn view(&self) -> Option<Seq<u8>> {
        match self.host_files_path {
            Some(p) => Some(p@),
            None => None,
        }
    }
}

impl ServerContext {
    /// A configuration with no file-serving root.
    pub fn unconfigured() -> (r: ServerContext)
        ensures
            r@ is None,
    {
        ServerContext { host_files_path: None }
    }

    /// A configuration rooted at the directory named by `path`.
    pub fn with_root(path: Vec<u8>) -> (r: ServerContext)
        ensures
            r@ == Some(path@),
    {
        ServerContext { host_files_path: Some(path) }
    }
}

} // verus!
