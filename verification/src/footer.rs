//! Builds the edit URL and the HTML footer snippet, and appends the snippet
//! to a chapter's text. The footer opens with a fixed marker whose presence
//! in a chapter means the chapter was already processed.

use vstd::prelude::*;
use vstd::string::{StringExecFns, StrSliceExecFns};
use crate::host::{Host, spec_edit_fragment, host_to_edit_uri_fragment};

verus! {

/// The stable marker that opens every injected footer; finding it in a
/// chapter's text means the footer is already there.
pub open spec fn spec_footer_marker() -> Seq<char> {
    "<footer id=\"open-git-repo\">"@
}

/// The marker string that opens every injected footer.
pub fn footer_marker() -> (r: &'static str)
    ensures
        r@ == spec_footer_marker(),
{
    "<footer id=\"open-git-repo\">"
}

/// The edit URL: base URL, host fragment, branch and relative path, joined
/// with `/`.
pub open spec fn spec_edit_url(
    base: Seq<char>,
    fragment: Seq<char>,
    branch: Seq<char>,
    relpath: Seq<char>,
) -> Seq<char> {
    base + "/"@ + fragment + "/"@ + branch + "/"@ + relpath
}

/// Builds the edit URL for a chapter.
pub fn render_edit_url(base: &str, host: &Host, branch: &str, relpath: &str) -> (r: String)
    ensures
        r@ == spec_edit_url(base@, spec_edit_fragment(*host), branch@, relpath@),
{
    let mut url = String::from_str(base);
    url.append("/");
    url.append(host_to_edit_uri_fragment(host));
    url.append("/");
    url.append(branch);
    url.append("/");
    url.append(relpath);
    url
}

/// The footer snippet: the marker, then the edit text, then an anchor to
/// `url` reading `link_text`.
pub open spec fn spec_footer_html(url: Seq<char>, link_text: Seq<char>, edit_text: Seq<char>) -> Seq<
    char,
> {
    spec_footer_marker() + edit_text + "<a href=\""@ + url + "\">"@ + link_text + "</a></footer>"@
}

/// Builds the footer snippet around an already-built edit URL.
pub fn render_footer_html(url: &str, link_text: &str, edit_text: &str) -> (r: String)
    ensures
        r@ == spec_footer_html(url@, link_text@, edit_text@),
{
    let mut html = String::from_str(footer_marker());
    html.append(edit_text);
    html.append("<a href=\"");
    html.append(url);
    html.append("\">");
    html.append(link_text);
    html.append("</a></footer>");
    html
}

/// A chapter's text with the footer appended on a fresh line.
pub open spec fn spec_appended(content: Seq<char>, footer_html: Seq<char>) -> Seq<char> {
    content + "\n"@ + footer_html
}

/// Appends the footer snippet to a chapter's text on a fresh line.
pub fn append_footer(content: &str, footer_html: &str) -> (r: String)
    ensures
        r@ == spec_appended(content@, footer_html@),
{
    let mut out = String::from_str(content);
    out.append("\n");
    out.append(footer_html);
    out
}

} // verus!
