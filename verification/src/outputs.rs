//! Output path resolution: where each input's converted bytes are written,
//! as a pure function of the global output override, the input source, and
//! whether the override is used as a directory.

use vstd::prelude::*;
use crate::endpoints::Endpoint;
use crate::endpoints::InputSource;
use crate::endpoints::OutputTarget;
use crate::pathnames::base_name;
use crate::pathnames::base_name_of;
use crate::pathnames::has_base_name;
use crate::pathnames::join_under_directory;
use crate::pathnames::joined;
use crate::pathnames::replace_extension_with_avif;
use crate::pathnames::with_avif_extension;

verus! {

/// Model of the optional global output override.
pub open spec fn target_option_model(g: &Option<OutputTarget>) -> Option<Endpoint> {
    match g {
        Some(t) => Some(t@),
        None => None,
    }
}

/// Whether an explicit output path is used as a directory: it is one when
/// several inputs share it, or when it already is a directory on disk.
pub open spec fn directory_mode(
    global: Option<Endpoint>,
    multiple_inputs: bool,
    global_is_dir: bool,
) -> bool {
    (global matches Some(Endpoint::File(_))) && (multiple_inputs || global_is_dir)
}

/// The destination of one input, by the decision table: no override turns a
/// file input's extension into `avif` and keeps the standard stream as is; a
/// standard-stream override wins over everything; a path override is either
/// the directory the input's renamed base name goes under, or itself.
pub open spec fn resolved_output(
    global: Option<Endpoint>,
    input: Endpoint,
    use_dir: bool,
) -> Endpoint {
    match (global, input) {
        (Option::None, Endpoint::File(p)) => Endpoint::File(with_avif_extension(p)),
        (Option::None, Endpoint::Stdio) => Endpoint::Stdio,
        (Option::Some(Endpoint::Stdio), _) => Endpoint::Stdio,
        (Option::Some(Endpoint::File(o)), Endpoint::Stdio) => Endpoint::File(o),
        (Option::Some(Endpoint::File(o)), Endpoint::File(p)) => if use_dir {
            Endpoint::File(joined(o, with_avif_extension(base_name_of(p))))
        } else {
            Endpoint::File(o)
        },
    }
}

/// Output path resolution is a pure function of the global output, the
/// input, and the directory-mode flag: identical arguments always resolve to
/// the identical destination, whatever batch they occur in.
pub proof fn lemma_output_resolution_deterministic(
    g1: Option<Endpoint>,
    i1: Endpoint,
    d1: bool,
    g2: Option<Endpoint>,
    i2: Endpoint,
    d2: bool,
)
    requires
        g1 == g2,
        i1 == i2,
        d1 == d2,
    ensures
        resolved_output(g1, i1, d1) == resolved_output(g2, i2, d2),
{
}

/// Reads the explicit output flag's value: a single dash denotes standard
/// output, anything else the file or directory path to write to.
pub fn parse_output_token(token: &String) -> (r: OutputTarget)
    ensures
        r@ == (if token@ == "-"@ {
            Endpoint::Stdio
        } else {
            Endpoint::File(token@)
        }),
{
    if crate::text::str_eq(token.as_str(), "-") {
        OutputTarget::Stdio
    } else {
        OutputTarget::FilePath(token.clone())
    }
}

/// Decides whether the output override is used as a directory.
pub fn use_directory(global: &Option<OutputTarget>, input_count: usize, global_is_dir: bool) -> (r:
    bool)
    ensures
        r == directory_mode(target_option_model(global), input_count > 1, global_is_dir),
{
    match global {
        Some(OutputTarget::FilePath(_)) => input_count > 1 || global_is_dir,
        _ => false,
    }
}

/// Whether the caller must create the output directory (and its parents)
/// before any job starts: an explicit output path shared by several inputs.
pub fn needs_directory_creation(global: &Option<OutputTarget>, input_count: usize) -> (r: bool)
    ensures
        r == ((target_option_model(global) matches Some(Endpoint::File(_))) && input_count > 1),
{
    match global {
        Some(OutputTarget::FilePath(_)) => input_count > 1,
        _ => false,
    }
}

/// Resolves one input's destination. Must be called before any of the
/// input's bytes are read: the decision depends only on the arguments.
pub fn resolve_output(global: &Option<OutputTarget>, input: &InputSource, use_dir: bool) -> (r:
    OutputTarget)
    requires
        match (global, input) {
            (Some(OutputTarget::FilePath(_)), InputSource::FilePath(p)) => use_dir
                ==> has_base_name(p@),
            _ => true,
        },
    ensures
        r@ == resolved_output(target_option_model(global), input@, use_dir),
{
    match (global, input) {
        (Option::None, InputSource::FilePath(p)) => OutputTarget::FilePath(
            replace_extension_with_avif(p.as_str()),
        ),
        (Option::None, InputSource::Stdio) => OutputTarget::Stdio,
        (Option::Some(OutputTarget::Stdio), _) => OutputTarget::Stdio,
        (Option::Some(OutputTarget::FilePath(o)), InputSource::Stdio) => OutputTarget::FilePath(
            o.clone(),
        ),
        (Option::Some(OutputTarget::FilePath(o)), InputSource::FilePath(p)) => {
            if use_dir {
                let name = match base_name(p.as_str()) {
                    Some(b) => b,
                    None => {
                        proof {
                            assert(false);
                        }
                        String::new()
                    },
                };
                let renamed = replace_extension_with_avif(name.as_str());
                proof {
                    assert(renamed@ == with_avif_extension(base_name_of(p@)));
                }
                OutputTarget::FilePath(join_under_directory(o.as_str(), renamed.as_str()))
            } else {
                OutputTarget::FilePath(o.clone())
            }
        },
    }
}

} // verus!
