//! Markdown to HTML.
//!
//! The rendering itself is the `markdown` crate's. Nothing of its output is
//! proved here; the contracts name it, so that callers can speak of it.

use vstd::prelude::*;

verus! {

/// The HTML that `markdown::to_html` renders for `text`: the CommonMark
/// rendering under the crate's default options, a function of the text alone.
pub uninterp spec fn rendered_html(text: Seq<char>) -> Seq<char>;

/// `markdown::to_html` accepts every string and returns the rendering named
/// by [`rendered_html`]. Its documentation gives it as the safe entry point
/// for arbitrary input: with the default options no markdown is an error.
pub assume_specification[ markdown::to_html ](value: &str) -> (html: String)
    ensures
        html@ == rendered_html(value@),
;

/// Converts markdown text to HTML.
///
/// Every string is accepted, the empty one and the output of an earlier
/// conversion included, and there is no failure to report: the result is
/// always the rendering of `text`.
pub fn convert_markdown(text: &str) -> (html: String)
    ensures
        html@ == rendered_html(text@),
{
    markdown::to_html(text)
}

/// Conversion never fails: every text may be handed to [`convert_markdown`],
/// and whatever it returns is the rendering of that text.
pub proof fn lemma_every_text_converts(text: &str)
    ensures
        call_requires(convert_markdown, (text,)),
        forall|html: String| #[trigger]
            call_ensures(convert_markdown, (text,), html) ==> html@ == rendered_html(text@),
{
}

/// HTML that a conversion produced may be converted again as if it were
/// markdown. The second conversion renders the first one's output; that the
/// two renderings agree is not claimed.
pub proof fn lemma_output_converts_again(text: &str, html: &str)
    requires
        html@ == rendered_html(text@),
    ensures
        call_requires(convert_markdown, (html,)),
        forall|again: String| #[trigger]
            call_ensures(convert_markdown, (html,), again) ==> again@ == rendered_html(
                rendered_html(text@),
            ),
{
}

} // verus!
