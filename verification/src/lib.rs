//! Static discovery of instrumented functions across a source tree.
//!
//! The crate walks parsed syntax trees of several languages and predicts the
//! set of labels — (module scope, function name) pairs — that a runtime
//! instrumentation layer would report, without executing the analyzed code.
//! Parsing and pattern matching are delegated to the tree-sitter family of
//! crates; everything that decides which labels come out — scope
//! qualification under nested containers, import resolution, wrapper-call
//! analysis, and project-wide aggregation — is verified here.
use vstd::prelude::*;

pub mod aggregate;
pub mod engine;
pub mod go;
pub mod lang;
pub mod laws;
pub mod paths;
pub mod python;
pub mod rust;
pub mod sitter;
pub mod strutil;
pub mod typescript;

verus! {

/// The identifier of a function in the form of an "expected" label: where the
/// function lives, and what it is called.
///
/// The label is a best effort: some languages cannot statically provide the
/// exact information that the instrumentation layer will produce at runtime.
#[derive(Clone, Debug)]
pub struct ExpectedAmLabel {
    /// The location of the definition of the function.
    pub module: String,
    /// The name of the function.
    pub function: String,
}

/// The mathematical value of a label: the two strings as character sequences.
pub struct LabelModel {
    pub module: Seq<char>,
    pub function: Seq<char>,
}

impl View for ExpectedAmLabel {
    type V = LabelModel;

    open spec fn view(&self) -> LabelModel {
        LabelModel { module: self.module@, function: self.function@ }
    }
}

impl DeepView for ExpectedAmLabel {
    type V = LabelModel;

    open spec fn deep_view(&self) -> LabelModel {
        self.view()
    }
}

impl PartialEq for ExpectedAmLabel {
    fn eq(&self, other: &Self) -> (r: bool) {
        self.module == other.module && self.function == other.function
    }
}

impl vstd::std_specs::cmp::PartialEqSpecImpl for ExpectedAmLabel {
    open spec fn obeys_eq_spec() -> bool {
        true
    }

    open spec fn eq_spec(&self, other: &Self) -> bool {
        self@ == other@
    }
}

impl ExpectedAmLabel {
    /// Build a label from its two fields.
    pub fn new(module: String, function: String) -> (r: Self)
        ensures
            r@.module == module@,
            r@.function == function@,
    {
        ExpectedAmLabel { module, function }
    }
}

/// Everything that can go wrong while setting up or running an analysis.
///
/// Only configuration-level problems are surfaced through this type: a file
/// whose content cannot be parsed contributes an empty result instead.
#[derive(Debug)]
pub enum AmlError {
    /// The tree-sitter parser for the language could not be created.
    CreateParser,
    /// The tree-sitter query for the language could not be compiled.
    CreateQuery,
    /// The query is expected to have the given named capture, and does not:
    /// the pattern text and the analysis code have drifted out of sync.
    MissingNamedCapture(String),
    /// The source code could not be parsed at all.
    Parsing,
    /// An extract of source code is not valid text.
    InvalidText,
}

pub type Result<T> = core::result::Result<T, AmlError>;

/// A fatal setup failure: the parser or a pattern could not be built, or a
/// pattern lacks a capture the analysis expects. These are the only failures
/// a whole-project run surfaces; everything else is absorbed per file.
pub open spec fn spec_is_setup_error(e: AmlError) -> bool {
    match e {
        AmlError::CreateParser => true,
        AmlError::CreateQuery => true,
        AmlError::MissingNamedCapture(_) => true,
        AmlError::Parsing => false,
        AmlError::InvalidText => false,
    }
}

/// A failure of pattern construction: the pattern text did not compile, or
/// it lacks an expected named capture.
pub open spec fn spec_is_pattern_error(e: AmlError) -> bool {
    match e {
        AmlError::CreateQuery => true,
        AmlError::MissingNamedCapture(_) => true,
        _ => false,
    }
}

/// A failure while reading one file: its parser could not be built, or the
/// file yielded no syntax tree.
pub open spec fn spec_is_parse_error(e: AmlError) -> bool {
    match e {
        AmlError::CreateParser => true,
        AmlError::Parsing => true,
        _ => false,
    }
}

/// What a language backend offers: listing the instrumented functions of a
/// project, and listing every function defined in it.
///
/// The project is handed over as the files the directory walker found, each
/// already read. A file whose content cannot be parsed, or a capture whose
/// text cannot be decoded, contributes nothing; only setup failures — a
/// parser or pattern that cannot be built — surface as errors, and the
/// contracts say so: an `Err` is always a setup failure. The result is a
/// set: it never holds the same label twice.
pub trait ListAmFunctions {
    /// Lists the instrumented functions of the project.
    fn list_autometrics_functions(&mut self, project: &Vec<SourceFile>) -> (r: Result<
        Vec<ExpectedAmLabel>,
    >)
        ensures
            match r {
                Ok(labels) => forall|i: int, j: int|
                    0 <= i < j < labels.deep_view().len() ==> labels.deep_view()[i]
                        != labels.deep_view()[j],
                Err(e) => spec_is_setup_error(e),
            },
    ;

    /// Lists every function defined in the project.
    fn list_all_functions(&mut self, project: &Vec<SourceFile>) -> (r: Result<
        Vec<ExpectedAmLabel>,
    >)
        ensures
            match r {
                Ok(labels) => forall|i: int, j: int|
                    0 <= i < j < labels.deep_view().len() ==> labels.deep_view()[i]
                        != labels.deep_view()[j],
                Err(e) => spec_is_setup_error(e),
            },
    ;
}

/// Applies the per-file failure policy of a whole-project run: a file whose
/// content cannot be parsed, or whose captures cannot be decoded, contributes
/// an empty result instead of aborting the run; any other failure is a setup
/// defect and surfaces.
pub fn absorb_file_failure(r: Result<Vec<ExpectedAmLabel>>) -> (out: Result<Vec<ExpectedAmLabel>>)
    ensures
        match out {
            Ok(_) => true,
            Err(e) => spec_is_setup_error(e),
        },
{
    match r {
        Ok(labels) => Ok(labels),
        Err(AmlError::Parsing) => Ok(Vec::new()),
        Err(AmlError::InvalidText) => Ok(Vec::new()),
        Err(e) => Err(e),
    }
}

/// One candidate file of a project, as handed over by the directory walker:
/// its path relative to the project root, split into components, and its
/// content.
pub struct SourceFile {
    /// Path components relative to the project root; the last one is the
    /// file name.
    pub path: Vec<String>,
    /// The content of the file.
    pub source: String,
}

} // verus!
