//! The standalone replicator's settings and fixed pieces: the command-line
//! configuration, the metadata stub written into each batch directory, and
//! the handle that carries the configuration to the copying run. The
//! directory and file work itself is the caller's business; the names and
//! line rewrites it needs come from `replicate`.

use vstd::prelude::*;
use vstd::string::StringExecFns;

verus! {

/// Settings of the replicator: the copy multiplier, and where from and to.
pub struct Config {
    pub replicator: String,
    pub src: String,
    pub dst: String,
}

impl Config {
    /// The first three arguments after the program name, in order: copy
    /// multiplier, source directory, destination directory.
    pub fn build(args: &Vec<String>) -> (r: Result<Config, &'static str>)
        ensures
            args@.len() <= 3 ==> (r matches Err(m) && m@ == "not enough arguments"@),
            args@.len() > 3 ==> (r matches Ok(c) && c.replicator == args@[1] && c.src == args@[2]
                && c.dst == args@[3]),
    {
        if args.len() <= 3 {
            return Err("not enough arguments");
        }
        let replicator = args[1].clone();
        let src = args[2].clone();
        let dst = args[3].clone();
        Ok(Config { replicator, src, dst })
    }
}

/// A replication run over one configuration.
pub struct Replication {
    pub config: Config,
}

impl Replication {
    pub fn new(config: Config) -> (r: Replication)
        ensures
            r.config == config,
    {
        Replication { config }
    }
}

/// The stub each batch's metadata file holds: an empty key list.
pub fn metadata_content() -> (r: String)
    ensures
        r@ == "{\n  \"keys\": []\n}"@,
{
    String::from_str("{\n  \"keys\": []\n}")
}

} // verus!
