//! Formatting configuration resolution.
//!
//! The formatting engines themselves are external collaborators; this
//! module only holds the rule for combining a configuration file's options
//! with command-line flags: a flag that is present always wins over the
//! configuration value, and an absent flag leaves it untouched.

use vstd::prelude::*;

verus! {

/// How prose in markdown is wrapped.
#[derive(Clone, Copy, Debug, PartialEq, Eq, Structural)]
pub enum ProseWrap {
    Always,
    Never,
    Preserve,
}

/// Formatting options as a configuration file states them; `None` means the
/// engine's default.
#[derive(Clone, Copy, Debug)]
pub struct FmtOptionsConfig {
    pub use_tabs: Option<bool>,
    pub line_width: Option<u32>,
    pub indent_width: Option<u8>,
    pub single_quote: Option<bool>,
    pub prose_wrap: Option<ProseWrap>,
}

impl Default for FmtOptionsConfig {
    /// The empty configuration: every option left to the engine's default.
    fn default() -> (d: FmtOptionsConfig)
        ensures
            d.use_tabs is None,
            d.line_width is None,
            d.indent_width is None,
            d.single_quote is None,
            d.prose_wrap is None,
    {
        FmtOptionsConfig {
            use_tabs: None,
            line_width: None,
            indent_width: None,
            single_quote: None,
            prose_wrap: None,
        }
    }
}

/// The formatting flags given on the command line; `prose_wrap` arrives as
/// its raw text, already validated upstream to be one of `always`, `never`
/// or `preserve`.
#[derive(Debug)]
pub struct FmtFlags {
    pub use_tabs: Option<bool>,
    pub line_width: Option<u32>,
    pub indent_width: Option<u8>,
    pub single_quote: Option<bool>,
    pub prose_wrap: Option<String>,
}

/// The wrap mode a validated prose-wrap flag denotes.
pub open spec fn prose_wrap_of(s: Seq<char>) -> ProseWrap {
    if s == "always"@ {
        ProseWrap::Always
    } else if s == "never"@ {
        ProseWrap::Never
    } else {
        ProseWrap::Preserve
    }
}

/// Combine configuration-file options with command-line flags: each flag
/// that is present overrides the configuration field, and each absent flag
/// leaves it as it was.
pub fn resolve_fmt_options(fmt_flags: &FmtFlags, options: FmtOptionsConfig) -> (r: FmtOptionsConfig)
    requires
        fmt_flags.prose_wrap matches Some(s) ==> s@ == "always"@ || s@ == "never"@ || s@
            == "preserve"@,
    ensures
        r.use_tabs == (if fmt_flags.use_tabs is Some {
            fmt_flags.use_tabs
        } else {
            options.use_tabs
        }),
        r.line_width == (if fmt_flags.line_width is Some {
            fmt_flags.line_width
        } else {
            options.line_width
        }),
        r.indent_width == (if fmt_flags.indent_width is Some {
            fmt_flags.indent_width
        } else {
            options.indent_width
        }),
        r.single_quote == (if fmt_flags.single_quote is Some {
            fmt_flags.single_quote
        } else {
            options.single_quote
        }),
        (match fmt_flags.prose_wrap {
            None => r.prose_wrap == options.prose_wrap,
            Some(s) => r.prose_wrap == Some(prose_wrap_of(s@)),
        }),
{
    let mut options = options;

    if let Some(use_tabs) = fmt_flags.use_tabs {
        options.use_tabs = Some(use_tabs);
    }

    if let Some(line_width) = fmt_flags.line_width {
        options.line_width = Some(line_width);
    }

    if let Some(indent_width) = fmt_flags.indent_width {
        options.indent_width = Some(indent_width);
    }

    if let Some(single_quote) = fmt_flags.single_quote {
        options.single_quote = Some(single_quote);
    }

    match &fmt_flags.prose_wrap {
        Some(prose_wrap) => {
            if *prose_wrap == "always".to_owned() {
                options.prose_wrap = Some(ProseWrap::Always);
            } else if *prose_wrap == "never".to_owned() {
                options.prose_wrap = Some(ProseWrap::Never);
            } else {
                options.prose_wrap = Some(ProseWrap::Preserve);
            }
        },
        None => {},
    }

    options
}

/// The right plural for a count of files in a report line.
pub fn files_str(len: usize) -> (r: &'static str)
    ensures
        len <= 1 ==> r@ == "file"@,
        len > 1 ==> r@ == "files"@,
{
    if len <= 1 {
        "file"
    } else {
        "files"
    }
}

} // verus!
