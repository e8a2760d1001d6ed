//! The directory that the tool works in, and the configuration that holds
//! there.

use vstd::prelude::*;
use vstd::string::*;
use crate::config::{merged, Merge, PartialMarkdownFormatterConfiguration};
use crate::diagnostics::CliDiagnostic;

verus! {

/// The directory that the tool works in.
#[derive(Debug)]
pub struct Workspace {
    root: String,
}

/// The configuration that sets nothing.
pub open spec fn empty_configuration() -> PartialMarkdownFormatterConfiguration {
    PartialMarkdownFormatterConfiguration { markdown: None, files: None, vcs: None, root: false }
}

/// The result of merging the configurations of `more_specific` into `base`,
/// the last of them first and the first of them last.
pub open spec fn merged_onto(
    base: PartialMarkdownFormatterConfiguration,
    more_specific: Seq<PartialMarkdownFormatterConfiguration>,
) -> PartialMarkdownFormatterConfiguration
    decreases more_specific.len(),
{
    if more_specific.len() == 0 {
        base
    } else {
        merged_onto(merged(base, more_specific.last()), more_specific.drop_last())
    }
}

/// The configuration that holds where `configs` were found, the most
/// specific first and the most general last: the most general one, with each
/// more specific one merged into it in turn, so that the most specific one
/// has the last word. Where none was found, nothing is set.
pub open spec fn merged_all(configs: Seq<PartialMarkdownFormatterConfiguration>)
    -> PartialMarkdownFormatterConfiguration {
    if configs.len() == 0 {
        empty_configuration()
    } else {
        merged_onto(configs.last(), configs.drop_last())
    }
}

impl Workspace {
    /// The path of the workspace.
    pub closed spec fn path(&self) -> Seq<char> {
        self.root@
    }

    /// The workspace of the current directory, `.`.
    pub fn new() -> (w: Self)
        ensures
            w.path() == "."@,
    {
        Workspace { root: String::from_str(".") }
    }

    /// The workspace of the given directory.
    pub fn at(root: &str) -> (w: Self)
        ensures
            w.path() == root@,
    {
        Workspace { root: String::from_str(root) }
    }

    /// The root of the workspace.
    pub fn root(&self) -> (r: &String)
        ensures
            r@ == self.path(),
    {
        &self.root
    }

    /// Merges the configurations that were found from the workspace upwards,
    /// given from the most specific to the most general. A failed search is
    /// handed on as it is.
    pub fn load_merged_configuration(
        &self,
        found: Result<Vec<PartialMarkdownFormatterConfiguration>, CliDiagnostic>,
    ) -> (r: Result<PartialMarkdownFormatterConfiguration, CliDiagnostic>)
        ensures
            match found {
                Ok(configs) => r == Ok::<PartialMarkdownFormatterConfiguration, CliDiagnostic>(
                    merged_all(configs@),
                ),
                Err(e) => r == Err::<PartialMarkdownFormatterConfiguration, CliDiagnostic>(e),
            },
    {
        let mut configs = match found {
            Ok(configs) => configs,
            Err(e) => {
                return Err(e);
            },
        };
        let ghost all = configs@;
        let mut result = match configs.pop() {
            Some(most_general) => most_general,
            None => {
                return Ok(PartialMarkdownFormatterConfiguration::default());
            },
        };
        assert(configs@ =~= all.drop_last());
        while configs.len() > 0
            invariant
                merged_onto(result, configs@) == merged_all(all),
            decreases configs@.len(),
        {
            let ghost before = configs@;
            let next = configs.pop().unwrap();
            assert(configs@ =~= before.drop_last());
            result.merge_with(next);
        }
        Ok(result)
    }
}

impl Default for Workspace {
    /// The workspace with an empty path.
    fn default() -> (w: Self)
        ensures
            w.path() == Seq::<char>::empty(),
    {
        Workspace { root: String::new() }
    }
}

} // verus!
