//! Where bytes come from and go to: the standard streams or a file path.

use vstd::prelude::*;
use vstd::string::StringExecFns;

verus! {

/// Mathematical model of a source or destination: the standard stream, or a
/// file at a path.
pub enum Endpoint {
    Stdio,
    File(Seq<char>),
}

/// One unit of pixel data to convert: standard input, or a file path.
pub enum InputSource {
    Stdio,
    FilePath(String),
}

impl View for InputSource {
    type V = Endpoint;

    open spec fn view(&self) -> Endpoint {
        match self {
            InputSource::Stdio => Endpoint::Stdio,
            InputSource::FilePath(p) => Endpoint::File(p@),
        }
    }
}

/// The resolved destination of one conversion: standard output, or a file
/// path.
pub enum OutputTarget {
    Stdio,
    FilePath(String),
}

impl View for OutputTarget {
    type V = Endpoint;

    open spec fn view(&self) -> Endpoint {
        match self {
            OutputTarget::Stdio => Endpoint::Stdio,
            OutputTarget::FilePath(p) => Endpoint::File(p@),
        }
    }
}

/// Human-readable description of a source for diagnostics: the literal
/// `stdin`, or the file's path.
pub open spec fn description_of(e: Endpoint) -> Seq<char> {
    match e {
        Endpoint::Stdio => "stdin"@,
        Endpoint::File(p) => p,
    }
}

impl InputSource {
    /// The source's description for diagnostics.
    pub fn description(&self) -> (r: String)
        ensures
            r@ == description_of(self@),
    {
        match self {
            InputSource::Stdio => String::from_str("stdin"),
            InputSource::FilePath(p) => p.clone(),
        }
    }

}

impl OutputTarget {
    /// A copy with the same meaning.
    pub fn duplicate(&self) -> (r: OutputTarget)
        ensures
            r@ == self@,
    {
        match self {
            OutputTarget::Stdio => OutputTarget::Stdio,
            OutputTarget::FilePath(p) => OutputTarget::FilePath(p.clone()),
        }
    }
}

} // verus!
