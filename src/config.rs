//! Process-wide settings, fixed at startup and read by every request.
use vstd::prelude::*;

verus! {

/// Where the service listens and where its redirect table lives.
pub struct Config {
    bind: String,
    redirect_table_path: String,
}

impl Config {
    pub closed spec fn spec_bind(&self) -> Seq<char> {
        self.bind@
    }

    pub closed spec fn spec_redirect_table_path(&self) -> Seq<char> {
        self.redirect_table_path@
    }

    pub fn new(bind: String, redirect_table_path: String) -> (r: Config)
        ensures
            r.spec_bind() == bind@,
            r.spec_redirect_table_path() == redirect_table_path@,
    {
        Config { bind, redirect_table_path }
    }

    /// The address to listen on, `host:port`.
    pub fn bind(&self) -> (r: &str)
        ensures
            r@ == self.spec_bind(),
    {
        self.bind.as_str()
    }

    /// The path of the redirect table file.
    pub fn redirect_table_path(&self) -> (r: &str)
        ensures
            r@ == self.spec_redirect_table_path(),
    {
        self.redirect_table_path.as_str()
    }
}

} // verus!
