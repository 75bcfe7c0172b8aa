//! Render configuration: the immutable settings that drive one run of the
//! renderer, and the source-kind tag that selects the playback path.

use vstd::prelude::*;
use vstd::string::{StrSliceExecFns, StringExecFns};

verus! {

/// Kind of source being displayed: an animated stream or a single still image.
#[derive(Clone, Copy, Debug, PartialEq, Eq, Structural)]
pub enum ProcessType {
    Gif,
    Image,
}

impl From<bool> for ProcessType {
    /// Tags a source as animated when the flag says so, still otherwise.
    fn from(value: bool) -> (t: Self) {
        if value {
            return ProcessType::Gif;
        }
        ProcessType::Image
    }
}

impl vstd::std_specs::convert::FromSpecImpl<bool> for ProcessType {
    open spec fn obeys_from_spec() -> bool {
        true
    }

    open spec fn from_spec(value: bool) -> Self {
        if value {
            ProcessType::Gif
        } else {
            ProcessType::Image
        }
    }
}

/// Immutable settings for one run: where the pixels come from, how wide the
/// output is, which glyph ramp is used, whether escapes carry the true pixel
/// color, and whether an animated source replays forever.
pub struct RenderConfig {
    pub source_path: String,
    pub source_kind: ProcessType,
    pub output_columns: u32,
    pub use_complex_charset: bool,
    pub use_color: bool,
    pub loop_playback: bool,
}

/// What one run of the program resolves to: print the usage text, fail for
/// want of a source path, or render under a configuration.
pub enum Resolution {
    Help,
    MissingPath,
    Run(RenderConfig),
}

/// A token that names the source: the five characters `path=` followed by
/// the file location.
pub open spec fn is_path_token(s: Seq<char>) -> bool {
    s.len() >= 5 && s[0] == 'p' && s[1] == 'a' && s[2] == 't' && s[3] == 'h' && s[4] == '='
}

/// The file location a path token carries: everything after `path=`.
pub open spec fn path_value(s: Seq<char>) -> Seq<char> {
    s.subrange(5, s.len() as int)
}

/// Whether a file location ends in `.gif`, which marks the source animated.
pub open spec fn has_gif_suffix(s: Seq<char>) -> bool {
    s.len() >= 4 && s[s.len() - 4] == '.' && s[s.len() - 3] == 'g' && s[s.len() - 2] == 'i' && s[
        s.len() - 1
    ] == 'f'
}

/// Whether some token equals the long or the short spelling of a flag.
pub open spec fn has_flag(args: Seq<String>, long: Seq<char>, short: Seq<char>) -> bool {
    exists|i: int| 0 <= i < args.len() && (args[i]@ == long || args[i]@ == short)
}

/// Whether the usage text was asked for, which suppresses everything else.
pub open spec fn help_requested(args: Seq<String>) -> bool {
    has_flag(args, "-help"@, "--h"@)
}

/// Whether some token names a source path.
pub open spec fn has_path(args: Seq<String>) -> bool {
    exists|i: int| 0 <= i < args.len() && is_path_token(args[i]@)
}

/// The column budget: the queried terminal width when the query succeeded,
/// a fixed default of 80 columns otherwise.
pub open spec fn columns_spec(term_width: Option<u16>) -> int {
    match term_width {
        Option::Some(w) => w as int,
        Option::None => 80,
    }
}

/// Whether `a` equals the string literal `b`.
fn token_is(a: &String, b: &str) -> (r: bool)
    ensures
        r == (a@ == b@),
{
    let bs = String::from_str(b);
    a.eq(&bs)
}

/// Whether some token equals the long or the short spelling of a flag.
fn find_flag(args: &Vec<String>, long: &str, short: &str) -> (r: bool)
    ensures
        r == has_flag(args@, long@, short@),
{
    let mut i: usize = 0;
    while i < args.len()
        invariant
            i <= args@.len(),
            forall|j: int| 0 <= j < i ==> !(args@[j]@ == long@ || args@[j]@ == short@),
        decreases args@.len() - i,
    {
        let a = &args[i];
        if token_is(a, long) || token_is(a, short) {
            return true;
        }
        i = i + 1;
    }
    false
}

/// Whether a token names a source path.
fn is_path_arg(a: &String) -> (r: bool)
    ensures
        r == is_path_token(a@),
{
    let st = a.as_str();
    let n = st.unicode_len();
    if n < 5 {
        return false;
    }
    let c0 = st.get_char(0);
    let c1 = st.get_char(1);
    let c2 = st.get_char(2);
    let c3 = st.get_char(3);
    let c4 = st.get_char(4);
    c0 == 'p' && c1 == 'a' && c2 == 't' && c3 == 'h' && c4 == '='
}

/// The position of the first path token, if any.
fn find_path(args: &Vec<String>) -> (r: Option<usize>)
    ensures
        match r {
            Option::Some(i) => i < args@.len() && is_path_token(args@[i as int]@) && (forall|
                j: int,
            | 0 <= j < i ==> !is_path_token(args@[j]@)),
            Option::None => !has_path(args@),
        },
{
    let mut i: usize = 0;
    while i < args.len()
        invariant
            i <= args@.len(),
            forall|j: int| 0 <= j < i ==> !is_path_token(args@[j]@),
        decreases args@.len() - i,
    {
        let a = &args[i];
        if is_path_arg(a) {
            return Some(i);
        }
        i = i + 1;
    }
    None
}

/// Whether a file location ends in `.gif`.
fn path_is_gif(p: &String) -> (r: bool)
    ensures
        r == has_gif_suffix(p@),
{
    let st = p.as_str();
    let n = st.unicode_len();
    if n < 4 {
        return false;
    }
    let c0 = st.get_char(n - 4);
    let c1 = st.get_char(n - 3);
    let c2 = st.get_char(n - 2);
    let c3 = st.get_char(n - 1);
    c0 == '.' && c1 == 'g' && c2 == 'i' && c3 == 'f'
}

/// Resolves one run from the raw argument tokens and the queried terminal
/// width. A help request wins over everything; otherwise the first path
/// token names the source, its `.gif` suffix selects animated playback, and
/// each boolean flag is set by the presence of either of its spellings.
pub fn resolve_config(args: &Vec<String>, term_width: Option<u16>) -> (r: Resolution)
    ensures
        help_requested(args@) ==> r is Help,
        !help_requested(args@) && !has_path(args@) ==> r is MissingPath,
        !help_requested(args@) && has_path(args@) ==> ({
            &&& r matches Resolution::Run(cfg)
            &&& exists|i: int|
                0 <= i < args@.len() && is_path_token(args@[i]@) && (forall|j: int|
                    0 <= j < i ==> !is_path_token(args@[j]@)) && cfg.source_path@ == path_value(
                    args@[i]@,
                ) && cfg.source_kind == (if has_gif_suffix(path_value(args@[i]@)) {
                    ProcessType::Gif
                } else {
                    ProcessType::Image
                })
            &&& cfg.output_columns == columns_spec(term_width)
            &&& cfg.use_complex_charset == has_flag(args@, "-complex"@, "--cp"@)
            &&& cfg.use_color == has_flag(args@, "-color"@, "--cl"@)
            &&& cfg.loop_playback == has_flag(args@, "-infinity"@, "--i"@)
        }),
{
    if find_flag(args, "-help", "--h") {
        return Resolution::Help;
    }
    let path_at = find_path(args);
    match path_at {
        Option::None => Resolution::MissingPath,
        Option::Some(i) => {
            let tok = &args[i];
            let st = tok.as_str();
            let n = st.unicode_len();
            let value = st.substring_char(5, n).to_owned();
            let is_gif = path_is_gif(&value);
            let kind = ProcessType::from(is_gif);
            let cols: u32 = match term_width {
                Option::Some(w) => w as u32,
                Option::None => 80,
            };
            let cfg = RenderConfig {
                source_path: value,
                source_kind: kind,
                output_columns: cols,
                use_complex_charset: find_flag(args, "-complex", "--cp"),
                use_color: find_flag(args, "-color", "--cl"),
                loop_playback: find_flag(args, "-infinity", "--i"),
            };
            Resolution::Run(cfg)
        },
    }
}

} // verus!
