//! The server-rendered views: the page wrapper every view shares, and
//! the small view models that carry their data.

use vstd::prelude::*;
use vstd::string::*;

use crate::html::{
    HtmlContext, MetaTag, head_parts_html, html_doc, metas_view, strings_view,
};

verus! {

/// Wrap an already-rendered body in the standard page: English, a
/// `Notor - `-prefixed title, the viewport meta tag, and the given
/// script and stylesheet.
pub fn html_from(body: String, title: &str, script: &str, style: &str) -> (r: String)
    ensures
        r@ == html_doc(
            "en"@,
            head_parts_html(
                "Notor - "@ + title@,
                "utf-8"@,
                seq![("viewport"@, "width=device-width, initial-scale=1"@)],
                seq![style@],
                seq![script@],
            ),
            body@,
        ),
{
    let full_title = String::from_str("Notor - ").concat(title);
    let ctx = HtmlContext::builder().lang("en").title(full_title.as_str()).add_meta(
        "viewport",
        "width=device-width, initial-scale=1",
    ).add_script(script).add_style(style).body(body).build();
    proof {
        assert(metas_view(Seq::<MetaTag>::empty()) =~= Seq::<(Seq<char>, Seq<char>)>::empty());
        assert(strings_view(Seq::<String>::empty()) =~= Seq::<Seq<char>>::empty());
        assert(Seq::<(Seq<char>, Seq<char>)>::empty().push(
            ("viewport"@, "width=device-width, initial-scale=1"@),
        ) =~= seq![("viewport"@, "width=device-width, initial-scale=1"@)]);
        assert(Seq::<Seq<char>>::empty().push(script@) =~= seq![script@]);
        assert(Seq::<Seq<char>>::empty().push(style@) =~= seq![style@]);
    }
    ctx.as_html()
}

/// The login page's view model: the error message to show, if any.
#[derive(Debug)]
pub struct Login {
    pub err: String,
}

impl Login {
    pub fn new(err: &str) -> (r: Login)
        ensures
            r.err@ == err@,
    {
        Login { err: err.to_owned() }
    }
}

/// The not-found page's view model: the URL that had no page.
#[derive(Debug)]
pub struct NotFound {
    pub url: String,
}

impl NotFound {
    pub fn new(url: &str) -> (r: NotFound)
        ensures
            r.url@ == url@,
    {
        NotFound { url: url.to_owned() }
    }
}

} // verus!
