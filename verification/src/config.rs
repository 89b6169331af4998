//! Typed view of the configuration a run reads: each setting is either
//! missing, a text value, or present with some other type. The defaults and
//! the missing/mistyped policy of every setting live here.

use vstd::prelude::*;
use vstd::string::StringExecFns;

verus! {

/// One configuration slot as the configuration file supplies it.
pub enum ConfigValue {
    /// The key is not set at all.
    Missing,
    /// The key is set to a plain text value.
    Text(String),
    /// The key is set, but to something other than text.
    Other,
}

/// The tool-scoped configuration table.
pub struct ToolConfig {
    pub source_control_host: ConfigValue,
    pub link_text: ConfigValue,
    pub edit_text: ConfigValue,
}

/// Everything a run reads from configuration: the book-level settings and,
/// when present, the tool-scoped table.
pub struct BookConfig {
    pub repository_url: ConfigValue,
    pub branch: ConfigValue,
    pub tool: Option<ToolConfig>,
}

/// The link text used when none is configured.
pub open spec fn spec_default_link_text() -> Seq<char> {
    "Edit this file on GitHub."@
}

/// The edit text used when none is configured.
pub open spec fn spec_default_edit_text() -> Seq<char> {
    "Found a bug? "@
}

/// The branch used when none is configured. `master` is kept for
/// compatibility even though newer repositories often default to another
/// name; set `output.html.git-branch` to override it.
pub open spec fn spec_default_branch() -> Seq<char> {
    "master"@
}

/// The explicitly configured host name, when the tool table is present and
/// names one as text.
pub open spec fn spec_explicit_host(cfg: BookConfig) -> Option<Seq<char>> {
    match cfg.tool {
        Some(t) => match t.source_control_host {
            ConfigValue::Text(s) => Some(s@),
            _ => None,
        },
        None => None,
    }
}

/// The configured link text, or its default; a mistyped value falls back to
/// the default.
pub open spec fn spec_link_text(cfg: BookConfig) -> Seq<char> {
    match cfg.tool {
        Some(t) => match t.link_text {
            ConfigValue::Text(s) => s@,
            _ => spec_default_link_text(),
        },
        None => spec_default_link_text(),
    }
}

/// The configured edit text, or its default; a mistyped value falls back to
/// the default.
pub open spec fn spec_edit_text(cfg: BookConfig) -> Seq<char> {
    match cfg.tool {
        Some(t) => match t.edit_text {
            ConfigValue::Text(s) => s@,
            _ => spec_default_edit_text(),
        },
        None => spec_default_edit_text(),
    }
}

/// The branch to link to: the default when unset, the value when text, and
/// nothing when mistyped — a mistyped branch makes the whole run a no-op.
pub open spec fn spec_branch(cfg: BookConfig) -> Option<Seq<char>> {
    match cfg.branch {
        ConfigValue::Missing => Some(spec_default_branch()),
        ConfigValue::Text(b) => Some(b@),
        ConfigValue::Other => None,
    }
}

/// Reads the explicitly configured host name, when one is set as text.
pub fn explicit_host(cfg: &BookConfig) -> (r: Option<String>)
    ensures
        r.deep_view() == spec_explicit_host(*cfg),
{
    match &cfg.tool {
        Some(t) => match &t.source_control_host {
            ConfigValue::Text(s) => Some(s.clone()),
            _ => None,
        },
        None => None,
    }
}

/// Reads the link text, falling back to its default.
pub fn link_text(cfg: &BookConfig) -> (r: String)
    ensures
        r@ == spec_link_text(*cfg),
{
    match &cfg.tool {
        Some(t) => match &t.link_text {
            ConfigValue::Text(s) => s.clone(),
            _ => String::from_str("Edit this file on GitHub."),
        },
        None => String::from_str("Edit this file on GitHub."),
    }
}

/// Reads the edit text, falling back to its default.
pub fn edit_text(cfg: &BookConfig) -> (r: String)
    ensures
        r@ == spec_edit_text(*cfg),
{
    match &cfg.tool {
        Some(t) => match &t.edit_text {
            ConfigValue::Text(s) => s.clone(),
            _ => String::from_str("Found a bug? "),
        },
        None => String::from_str("Found a bug? "),
    }
}

/// Reads the branch, falling back to its default; nothing when mistyped.
pub fn branch(cfg: &BookConfig) -> (r: Option<String>)
    ensures
        r.deep_view() == spec_branch(*cfg),
{
    match &cfg.branch {
        ConfigValue::Missing => Some(String::from_str("master")),
        ConfigValue::Text(b) => Some(b.clone()),
        ConfigValue::Other => None,
    }
}

} // verus!
