use vstd::prelude::*;

verus! {

/// The server's configuration.
#[derive(Clone, Debug)]
pub struct Args {
    /// The listen address: `:<port>` or `host:port`.
    pub listen: String,
    /// The directory served from disk.
    pub serve_dir: String,
    /// Whether an unmatched path falls back to an index document.
    pub index: bool,
    /// The most worker threads that blocking reads may use.
    pub blocking_threads: usize,
}

impl Default for Args {
    /// Listens on every interface at port 8080, serves the current directory, with index
    /// fallback, and at most eight blocking threads.
    fn default() -> (r: Args)
        ensures
            r.listen@ == ":8080"@,
            r.serve_dir@ == "."@,
            r.index,
            r.blocking_threads == 8,
    {
        Args {
            listen: String::from_str(":8080"),
            serve_dir: String::from_str("."),
            index: true,
            blocking_threads: 8,
        }
    }
}

} // verus!
