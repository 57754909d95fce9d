//! The accumulator a provider fills before a script runs: environment
//! variables, and named data files for the job's temporary directory.

use crate::dict::StrDict;
use crate::strutil::{to_upper, upper_of};
use vstd::prelude::*;

verus! {

/// Abstract value of an [`EnvBuilder`].
pub ghost struct EnvBuilderV {
    pub env: Map<Seq<char>, Seq<char>>,
    pub files: Map<Seq<char>, Seq<u8>>,
}

/// Environment variables and payload files accumulated for one job.
/// Each data file also exposes an environment variable named by the
/// upper-cased logical name; the runner replaces its value with the
/// file's absolute path once the job's directory exists.
pub struct EnvBuilder {
    env: StrDict<String>,
    files: StrDict<Vec<u8>>,
}

impl View for EnvBuilder {
    type V = EnvBuilderV;

    closed spec fn view(&self) -> EnvBuilderV {
        EnvBuilderV { env: self.env@, files: self.files@ }
    }
}

impl EnvBuilder {
    /// An empty accumulator.
    pub fn new() -> (r: Self)
        ensures
            r@.env == Map::<Seq<char>, Seq<char>>::empty(),
            r@.files == Map::<Seq<char>, Seq<u8>>::empty(),
    {
        EnvBuilder { env: StrDict::new(), files: StrDict::new() }
    }

    /// Set an environment variable, overwriting an earlier value.
    pub fn add_env(&mut self, key: &str, value: &str)
        ensures
            final(self)@.env == old(self)@.env.insert(key@, value@),
            final(self)@.files == old(self)@.files,
    {
        self.env.insert(key.to_owned(), value.to_owned());
    }

    /// Record a data file with the given contents, and expose an
    /// environment variable named by the upper-cased logical name. Its
    /// value is the logical name itself until the runner rewrites it to
    /// the file's absolute path.
    pub fn data_file(&mut self, name: &str, content: Vec<u8>)
        ensures
            final(self)@.env == old(self)@.env.insert(upper_of(name@), name@),
            final(self)@.files == old(self)@.files.insert(name@, content@),
    {
        let upper = to_upper(name);
        self.env.insert(upper, name.to_owned());
        self.files.insert(name.to_owned(), content);
    }

    /// The accumulated environment.
    pub fn env(&self) -> (r: &StrDict<String>)
        ensures
            r@ == self@.env,
    {
        &self.env
    }

    /// The accumulated files.
    pub fn files(&self) -> (r: &StrDict<Vec<u8>>)
        ensures
            r@ == self@.files,
    {
        &self.files
    }
}

} // verus!
