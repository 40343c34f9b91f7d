//! The Go backend: functions marked by an `//autometrics:` directive comment
//! on the line above, qualified by the file's package name.
pub mod queries;

use vstd::prelude::*;

use crate::aggregate::aggregate;
use crate::paths::is_valid;
use crate::ExpectedAmLabel;
use crate::ListAmFunctions;
use crate::Result;
use crate::SourceFile;
use queries::AllFunctionsQuery;
use queries::AmQuery;

verus! {

/// The Go language backend.
#[derive(Clone, Copy, Debug, Default)]
pub struct Impl {}

impl ListAmFunctions for Impl {
    fn list_autometrics_functions(&mut self, project: &Vec<SourceFile>) -> (r: Result<
        Vec<ExpectedAmLabel>,
    >) {
        let query = AmQuery::try_new()?;
        let mut parts: Vec<Vec<ExpectedAmLabel>> = Vec::new();
        let mut i: usize = 0;
        while i < project.len()
            decreases project@.len() - i,
        {
            let f = &project[i];
            if f.path.len() > 0 {
                let file_name = &f.path[f.path.len() - 1];
                if is_valid(file_name.as_str(), false, ".go") {
                    match query.list_function_names(f.source.as_str()) {
                        Ok(labels) => parts.push(labels),
                        Err(_) => parts.push(Vec::new()),
                    }
                }
            }
            i += 1;
        }
        Ok(aggregate(&parts))
    }

    fn list_all_functions(&mut self, project: &Vec<SourceFile>) -> (r: Result<
        Vec<ExpectedAmLabel>,
    >) {
        let query = AllFunctionsQuery::try_new()?;
        let mut parts: Vec<Vec<ExpectedAmLabel>> = Vec::new();
        let mut i: usize = 0;
        while i < project.len()
            decreases project@.len() - i,
        {
            let f = &project[i];
            if f.path.len() > 0 {
                let file_name = &f.path[f.path.len() - 1];
                if is_valid(file_name.as_str(), false, ".go") {
                    match query.list_function_names(f.source.as_str()) {
                        Ok(labels) => parts.push(labels),
                        Err(_) => parts.push(Vec::new()),
                    }
                }
            }
            i += 1;
        }
        Ok(aggregate(&parts))
    }
}

} // verus!
