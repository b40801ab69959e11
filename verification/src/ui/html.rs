//! A description in HTML laid out as rows of text: a `br` tag ends a row,
//! every other tag is left aside.
use crate::text::str_eq;
use vstd::prelude::*;

verus! {

/// The mathematical value of a token.
pub enum HtmlTokenView {
    StartTag(Seq<char>),
    EndTag(Seq<char>),
    Text(Seq<char>),
    Other,
}

/// A token of an HTML text: a start tag or an end tag with its name, a
/// piece of text, or anything else.
#[derive(Debug)]
pub enum HtmlToken {
    StartTag(String),
    EndTag(String),
    Text(String),
    Other,
}

impl View for HtmlToken {
    type V = HtmlTokenView;

    open spec fn view(&self) -> HtmlTokenView {
        match self {
            HtmlToken::StartTag(name) => HtmlTokenView::StartTag(name@),
            HtmlToken::EndTag(name) => HtmlTokenView::EndTag(name@),
            HtmlToken::Text(text) => HtmlTokenView::Text(text@),
            HtmlToken::Other => HtmlTokenView::Other,
        }
    }
}

impl DeepView for HtmlToken {
    type V = HtmlTokenView;

    open spec fn deep_view(&self) -> HtmlTokenView {
        self@
    }
}

/// The tokens that html5gum reads from an HTML text, in order, each reduced
/// to what the layout looks at.
pub uninterp spec fn html_tokens_of(html: Seq<char>) -> Seq<HtmlTokenView>;

/// Runs `html5gum::Tokenizer::new` over the text and copies each token out:
/// the name of a start or end tag, the text of a string token; comments,
/// doctypes and errors become `Other`. The outcome depends on the text alone.
#[verifier::external_body]
pub(crate) fn tokenize(html: &str) -> (tokens: Vec<HtmlToken>)
    ensures
        tokens.deep_view() == html_tokens_of(html@),
{
    html5gum::Tokenizer::new(html).map(
        |token| match token {
            Ok(html5gum::Token::StartTag(tag)) => HtmlToken::StartTag(
                String::from_utf8_lossy(&tag.name).into_owned(),
            ),
            Ok(html5gum::Token::EndTag(tag)) => HtmlToken::EndTag(
                String::from_utf8_lossy(&tag.name).into_owned(),
            ),
            Ok(html5gum::Token::String(text)) => HtmlToken::Text(
                String::from_utf8_lossy(&text.value).into_owned(),
            ),
            _ => HtmlToken::Other,
        },
    ).collect()
}

/// The rows that a list of tokens is laid out in. There is always a row; a
/// start tag named `br` opens a new one; a piece of text goes to the end of
/// the last row.
pub open spec fn spec_layout(tokens: Seq<HtmlTokenView>) -> Seq<Seq<Seq<char>>>
    decreases tokens.len(),
{
    if tokens.len() == 0 {
        seq![Seq::empty()]
    } else {
        let rows = spec_layout(tokens.drop_last());
        match tokens.last() {
            HtmlTokenView::StartTag(name) => if name == "br"@ {
                rows.push(Seq::empty())
            } else {
                rows
            },
            HtmlTokenView::Text(text) => rows.drop_last().push(rows.last().push(text)),
            _ => rows,
        }
    }
}

/// The number of start tags named `br` among the tokens.
pub open spec fn spec_breaks(tokens: Seq<HtmlTokenView>) -> nat
    decreases tokens.len(),
{
    if tokens.len() == 0 {
        0
    } else {
        spec_breaks(tokens.drop_last()) + (if tokens.last() == HtmlTokenView::StartTag("br"@) {
            1nat
        } else {
            0nat
        })
    }
}

/// A layout has one row more than the text has line breaks.
pub proof fn lemma_layout_rows(tokens: Seq<HtmlTokenView>)
    ensures
        spec_layout(tokens).len() == spec_breaks(tokens) + 1,
    decreases tokens.len(),
{
    if tokens.len() > 0 {
        lemma_layout_rows(tokens.drop_last());
    }
}

/// Lays a list of tokens out in rows of text.
pub fn layout_html(tokens: &Vec<HtmlToken>) -> (rows: Vec<Vec<String>>)
    ensures
        rows.deep_view() == spec_layout(tokens.deep_view()),
{
    let ghost all = tokens.deep_view();
    let mut rows: Vec<Vec<String>> = Vec::new();
    let mut row: Vec<String> = Vec::new();
    let mut i: usize = 0;
    proof {
        assert(all.take(0) =~= Seq::empty());
        assert(row.deep_view() =~= Seq::<Seq<char>>::empty());
        assert(rows.deep_view() =~= Seq::<Seq<Seq<char>>>::empty());
        assert(rows.deep_view().push(row.deep_view()) =~= spec_layout(all.take(0)));
    }
    while i < tokens.len()
        invariant
            i <= tokens.len(),
            all == tokens.deep_view(),
            rows.deep_view().push(row.deep_view()) == spec_layout(all.take(i as int)),
        decreases tokens.len() - i,
    {
        let ghost done = rows.deep_view();
        let ghost open = row.deep_view();
        proof {
            assert(all.take(i + 1).drop_last() =~= all.take(i as int));
            assert(all.take(i + 1).last() == tokens[i as int]@);
            assert(done.push(open).drop_last() =~= done);
        }
        match &tokens[i] {
            HtmlToken::StartTag(name) => {
                if str_eq(name.as_str(), "br") {
                    rows.push(row);
                    row = Vec::new();
                    proof {
                        assert(rows.deep_view() =~= done.push(open));
                        assert(row.deep_view() =~= Seq::<Seq<char>>::empty());
                    }
                }
            },
            HtmlToken::Text(text) => {
                row.push(text.clone());
                proof {
                    assert(row.deep_view() =~= open.push(text@));
                }
            },
            _ => {},
        }
        i += 1;
    }
    proof {
        assert(all.take(i as int) =~= all);
    }
    let ghost done = rows.deep_view();
    let ghost open = row.deep_view();
    rows.push(row);
    assert(rows.deep_view() =~= done.push(open));
    rows
}

/// The rows of text that an HTML description is drawn in.
pub fn draw_html(html: &str) -> (rows: Vec<Vec<String>>)
    ensures
        rows.deep_view() == spec_layout(html_tokens_of(html@)),
{
    let tokens = tokenize(html);
    layout_html(&tokens)
}

} // verus!
