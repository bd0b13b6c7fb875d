//! Input resolution: expanding the raw token list into the ordered batch of
//! input sources, dropping already-encoded files and collecting advisory
//! warnings.

use vstd::prelude::*;
use vstd::string::StringExecFns;
use crate::endpoints::Endpoint;
use crate::endpoints::InputSource;
use crate::errors::ConfigError;
use crate::pathnames::has_avif_extension;
use crate::pathnames::is_avif_path;
use crate::text::is_u8_numeral;
use crate::text::parses_as_u8;
use crate::text::str_eq;

verus! {

/// Model of an advisory diagnostic emitted while classifying tokens.
pub enum WarningModel {
    AlreadyAvif(Seq<char>),
    MeantOutputFlag(Seq<char>),
    QuietVsQuality(Seq<char>),
}

/// An advisory diagnostic emitted while classifying input tokens. None of
/// them removes an input beyond the already-encoded rule or aborts the run.
pub enum ResolutionWarning {
    /// The path is already an AVIF file and is dropped from the batch.
    AlreadyAvif { path: String },
    /// The named AVIF file does not exist; the output flag may have been
    /// intended instead.
    MeantOutputFlag { path: String },
    /// In quiet mode, a numeric token naming no existing file was likely
    /// meant as a quality setting.
    QuietVsQuality { token: String },
}

impl View for ResolutionWarning {
    type V = WarningModel;

    open spec fn view(&self) -> WarningModel {
        match self {
            ResolutionWarning::AlreadyAvif { path } => WarningModel::AlreadyAvif(path@),
            ResolutionWarning::MeantOutputFlag { path } => WarningModel::MeantOutputFlag(path@),
            ResolutionWarning::QuietVsQuality { token } => WarningModel::QuietVsQuality(token@),
        }
    }
}

/// The printed text of a warning.
pub open spec fn warning_text(w: WarningModel) -> Seq<char> {
    match w {
        WarningModel::AlreadyAvif(p) => "warning: ignoring "@ + p
            + ", because it's already an AVIF"@,
        WarningModel::MeantOutputFlag(p) => "warning: Did you mean to use -o "@ + p + "?"@,
        WarningModel::QuietVsQuality(t) => "warning: -q is not for quality, so '"@ + t
            + "' is misinterpreted as a file. Use -Q "@ + t,
    }
}

impl ResolutionWarning {
    /// The warning's printable line.
    pub fn warning_line(&self) -> (r: String)
        ensures
            r@ == warning_text(self@),
    {
        match self {
            ResolutionWarning::AlreadyAvif { path } => {
                let r = String::from_str("warning: ignoring ").concat(path.as_str()).concat(
                    ", because it's already an AVIF",
                );
                proof {
                    assert(r@ =~= warning_text(self@));
                }
                r
            },
            ResolutionWarning::MeantOutputFlag { path } => {
                let r = String::from_str("warning: Did you mean to use -o ").concat(
                    path.as_str(),
                ).concat("?");
                proof {
                    assert(r@ =~= warning_text(self@));
                }
                r
            },
            ResolutionWarning::QuietVsQuality { token } => {
                let r = String::from_str("warning: -q is not for quality, so '").concat(
                    token.as_str(),
                ).concat("' is misinterpreted as a file. Use -Q ").concat(token.as_str());
                proof {
                    assert(r@ =~= warning_text(self@));
                }
                r
            },
        }
    }

    /// A copy with the same meaning.
    pub fn duplicate(&self) -> (r: ResolutionWarning)
        ensures
            r@ == self@,
    {
        match self {
            ResolutionWarning::AlreadyAvif { path } => ResolutionWarning::AlreadyAvif {
                path: path.clone(),
            },
            ResolutionWarning::MeantOutputFlag { path } => ResolutionWarning::MeantOutputFlag {
                path: path.clone(),
            },
            ResolutionWarning::QuietVsQuality { token } => ResolutionWarning::QuietVsQuality {
                token: token.clone(),
            },
        }
    }
}

/// What becomes of one token: a token naming an existing AVIF file is
/// dropped; one naming a missing AVIF file is kept; a single dash denotes
/// standard input; anything else is a file path input.
pub open spec fn token_kept(token: Seq<char>, exists: bool) -> Option<Endpoint> {
    if is_avif_path(token) {
        if exists {
            None
        } else {
            Some(Endpoint::File(token))
        }
    } else if token == "-"@ {
        Some(Endpoint::Stdio)
    } else {
        Some(Endpoint::File(token))
    }
}

/// The warnings one token provokes, in emission order: the quiet-mode
/// quality heuristic first, then the AVIF-extension advice (the latter only
/// outside quiet mode).
pub open spec fn token_warnings(token: Seq<char>, exists: bool, quiet: bool) -> Seq<WarningModel> {
    let heuristic: Seq<WarningModel> = if quiet && is_u8_numeral(token) && !exists {
        seq![WarningModel::QuietVsQuality(token)]
    } else {
        Seq::empty()
    };
    let advice: Seq<WarningModel> = if is_avif_path(token) && !quiet {
        if exists {
            seq![WarningModel::AlreadyAvif(token)]
        } else {
            seq![WarningModel::MeantOutputFlag(token)]
        }
    } else {
        Seq::empty()
    };
    heuristic + advice
}

/// The decision for one token.
pub struct TokenDecision {
    /// The input source the token becomes, or nothing when it is dropped.
    pub kept: Option<InputSource>,
    /// Advisory warnings, in emission order.
    pub warnings: Vec<ResolutionWarning>,
}

/// Classifies one raw token, given whether the path it names exists.
pub fn classify_token(token: &String, exists: bool, quiet: bool) -> (r: TokenDecision)
    ensures
        match r.kept {
            Some(s) => token_kept(token@, exists) == Some(s@),
            None => token_kept(token@, exists) is None,
        },
        r.warnings@.map_values(|w: ResolutionWarning| w@) == token_warnings(token@, exists, quiet),
{
    let mut warnings: Vec<ResolutionWarning> = Vec::new();
    if quiet && parses_as_u8(token.as_str()) && !exists {
        warnings.push(ResolutionWarning::QuietVsQuality { token: token.clone() });
    }
    let kept: Option<InputSource>;
    if has_avif_extension(token.as_str()) {
        if exists {
            if !quiet {
                warnings.push(ResolutionWarning::AlreadyAvif { path: token.clone() });
            }
            kept = None;
        } else {
            if !quiet {
                warnings.push(ResolutionWarning::MeantOutputFlag { path: token.clone() });
            }
            kept = Some(InputSource::FilePath(token.clone()));
        }
    } else if str_eq(token.as_str(), "-") {
        kept = Some(InputSource::Stdio);
    } else {
        kept = Some(InputSource::FilePath(token.clone()));
    }
    let r = TokenDecision { kept, warnings };
    proof {
        assert(r.warnings@.map_values(|w: ResolutionWarning| w@) =~= token_warnings(
            token@,
            exists,
            quiet,
        ));
    }
    r
}

/// One raw argument token together with whether the path it names exists on
/// disk at resolution time.
pub struct InputToken {
    pub text: String,
    pub exists: bool,
}

/// The models of a token list.
pub open spec fn token_models(tokens: Seq<InputToken>) -> Seq<(Seq<char>, bool)> {
    tokens.map_values(|t: InputToken| (t.text@, t.exists))
}

/// The sources kept from a token list, in order.
pub open spec fn kept_sources(toks: Seq<(Seq<char>, bool)>) -> Seq<Endpoint>
    decreases toks.len(),
{
    if toks.len() == 0 {
        Seq::empty()
    } else {
        kept_sources(toks.drop_last()) + match token_kept(toks.last().0, toks.last().1) {
            Some(e) => seq![e],
            None => Seq::empty(),
        }
    }
}

/// All warnings a token list provokes, in order.
pub open spec fn batch_warnings(toks: Seq<(Seq<char>, bool)>, quiet: bool) -> Seq<WarningModel>
    decreases toks.len(),
{
    if toks.len() == 0 {
        Seq::empty()
    } else {
        batch_warnings(toks.drop_last(), quiet) + token_warnings(
            toks.last().0,
            toks.last().1,
            quiet,
        )
    }
}

/// Expands the raw token list into the ordered input batch. The warnings are
/// returned in emission order whatever the outcome; the batch is an error
/// exactly when no convertible input remains after filtering.
pub fn resolve_inputs(tokens: &Vec<InputToken>, quiet: bool) -> (r: (
    Vec<ResolutionWarning>,
    Result<Vec<InputSource>, ConfigError>,
))
    ensures
        r.0@.map_values(|w: ResolutionWarning| w@) == batch_warnings(
            token_models(tokens@),
            quiet,
        ),
        match r.1 {
            Ok(sources) => {
                &&& kept_sources(token_models(tokens@)).len() > 0
                &&& sources@.map_values(|s: InputSource| s@) == kept_sources(
                    token_models(tokens@),
                )
            },
            Err(e) => {
                &&& kept_sources(token_models(tokens@)).len() == 0
                &&& e.wf()
                &&& e.chain() == seq!["No PNG/JPEG files specified"@]
            },
        },
{
    let ghost toks = token_models(tokens@);
    let mut sources: Vec<InputSource> = Vec::new();
    let mut warnings: Vec<ResolutionWarning> = Vec::new();
    let n: usize = tokens.len();
    let mut i: usize = 0;
    while i < n
        invariant
            i <= n,
            n == tokens@.len(),
            toks == token_models(tokens@),
            toks.len() == n,
            sources@.map_values(|s: InputSource| s@) == kept_sources(toks.subrange(0, i as int)),
            warnings@.map_values(|w: ResolutionWarning| w@) == batch_warnings(
                toks.subrange(0, i as int),
                quiet,
            ),
        decreases n - i,
    {
        let t = &tokens[i];
        let d = classify_token(&t.text, t.exists, quiet);
        let ghost warnings0 = warnings@;
        let dw = d.warnings;
        let m: usize = dw.len();
        let mut j: usize = 0;
        while j < m
            invariant
                j <= m,
                m == dw@.len(),
                warnings@.len() == warnings0.len() + j,
                forall|k: int| 0 <= k < warnings0.len() ==> warnings@[k] == warnings0[k],
                forall|k: int| 0 <= k < j ==> warnings@[warnings0.len() + k]@ == dw@[k]@,
            decreases m - j,
        {
            warnings.push(dw[j].duplicate());
            j = j + 1;
        }
        proof {
            assert(warnings@.map_values(|w: ResolutionWarning| w@) =~= warnings0.map_values(
                |w: ResolutionWarning| w@,
            ) + dw@.map_values(|w: ResolutionWarning| w@));
        }
        match d.kept {
            Some(s) => {
                sources.push(s);
            },
            None => {},
        }
        proof {
            assert(toks.subrange(0, i as int + 1).drop_last() =~= toks.subrange(0, i as int));
            assert(toks.subrange(0, i as int + 1).last() == (tokens@[i as int].text@,
            tokens@[i as int].exists));
            assert(sources@.map_values(|s: InputSource| s@) =~= kept_sources(
                toks.subrange(0, i as int + 1),
            ));
            assert(warnings@.map_values(|w: ResolutionWarning| w@) =~= batch_warnings(
                toks.subrange(0, i as int + 1),
                quiet,
            ));
        }
        i = i + 1;
    }
    proof {
        assert(toks.subrange(0, n as int) =~= toks);
    }
    if sources.len() == 0 {
        proof {
            assert(kept_sources(toks).len() == sources@.map_values(
                |s: InputSource| s@,
            ).len());
        }
        (warnings, Err(ConfigError::new(String::from_str("No PNG/JPEG files specified"))))
    } else {
        (warnings, Ok(sources))
    }
}

} // verus!
