//! The HTML page context the server renders: a `<head>` section built
//! from a title, a charset, meta tags, styles and scripts, wrapped in a
//! full document with a language attribute and a body.
//!
//! The exact text each part renders to is pinned down by spec functions
//! (`head_parts_html`, `html_doc`); the exec renderers are proved to
//! produce exactly that text.

use vstd::prelude::*;
use vstd::string::*;

verus! {

/// The character sets a page can declare.
#[derive(Clone, Copy, Debug)]
pub enum Charset {
    Utf8,
}

/// The wire form of a charset, as the `<meta charset>` tag carries it.
pub open spec fn charset_str(c: Charset) -> Seq<char> {
    match c {
        Charset::Utf8 => "utf-8"@,
    }
}

impl Charset {
    pub fn as_str(&self) -> (r: &'static str)
        ensures
            r@ == charset_str(*self),
    {
        match self {
            Charset::Utf8 => "utf-8",
        }
    }
}

/// One `<meta name content>` tag.
#[derive(Debug)]
pub struct MetaTag {
    pub name: String,
    pub content: String,
}

impl MetaTag {
    pub fn new(name: &str, content: &str) -> (r: MetaTag)
        ensures
            r.name@ == name@,
            r.content@ == content@,
    {
        MetaTag { name: name.to_owned(), content: content.to_owned() }
    }
}

/// The (name, content) pairs a sequence of meta tags denotes.
pub open spec fn metas_view(tags: Seq<MetaTag>) -> Seq<(Seq<char>, Seq<char>)> {
    tags.map_values(|t: MetaTag| (t.name@, t.content@))
}

/// The texts a sequence of strings denotes.
pub open spec fn strings_view(ss: Seq<String>) -> Seq<Seq<char>> {
    ss.map_values(|s: String| s@)
}

/// The text one meta tag renders to.
pub open spec fn meta_html(name: Seq<char>, content: Seq<char>) -> Seq<char> {
    "\n    <meta name=\""@ + name + "\" content=\""@ + content + "\">\n    "@
}

/// The text a list of meta tags renders to.
pub open spec fn metas_html(metas: Seq<(Seq<char>, Seq<char>)>) -> Seq<char>
    decreases metas.len(),
{
    if metas.len() == 0 {
        Seq::empty()
    } else {
        meta_html(metas[0].0, metas[0].1) + metas_html(metas.drop_first())
    }
}

/// The text one stylesheet link renders to.
pub open spec fn style_html(href: Seq<char>) -> Seq<char> {
    "\n    <link rel=\"stylesheet\" href=\""@ + href + "\">\n    "@
}

/// The text a list of stylesheet links renders to.
pub open spec fn styles_html(hrefs: Seq<Seq<char>>) -> Seq<char>
    decreases hrefs.len(),
{
    if hrefs.len() == 0 {
        Seq::empty()
    } else {
        style_html(hrefs[0]) + styles_html(hrefs.drop_first())
    }
}

/// The text one script tag renders to.
pub open spec fn script_html(src: Seq<char>) -> Seq<char> {
    "\n    <script src=\""@ + src + "\"></script>\n    "@
}

/// The text a list of script tags renders to.
pub open spec fn scripts_html(srcs: Seq<Seq<char>>) -> Seq<char>
    decreases srcs.len(),
{
    if srcs.len() == 0 {
        Seq::empty()
    } else {
        script_html(srcs[0]) + scripts_html(srcs.drop_first())
    }
}

/// The full text of a `<head>` section.
pub open spec fn head_parts_html(
    title: Seq<char>,
    charset: Seq<char>,
    metas: Seq<(Seq<char>, Seq<char>)>,
    styles: Seq<Seq<char>>,
    scripts: Seq<Seq<char>>,
) -> Seq<char> {
    "<head>\n\n    <title> "@ + title + " </title>\n    <meta charset=\""@ + charset + "\">\n    "@
        + metas_html(metas) + "\n\n    "@ + styles_html(styles) + "\n\n    "@ + scripts_html(
        scripts,
    ) + "\n\n</head>"@
}

/// The full text of an HTML document.
pub open spec fn html_doc(lang: Seq<char>, head: Seq<char>, body: Seq<char>) -> Seq<char> {
    "<!doctype html>\n<html lang=\""@ + lang + "\">\n\n"@ + head + "\n\n<body>\n\n"@ + body
        + "\n\n</body>\n\n</html>\n"@
}

/// The `<head>` section of a page: title, charset, meta tags, styles and
/// scripts, rendered in that order.
#[derive(Debug)]
pub struct HeadContext {
    pub title: String,
    pub charset: Charset,
    pub meta_tags: Vec<MetaTag>,
    pub scripts: Vec<String>,
    pub styles: Vec<String>,
}

/// What a `HeadContext` renders to.
pub open spec fn head_html(h: HeadContext) -> Seq<char> {
    head_parts_html(
        h.title@,
        charset_str(h.charset),
        metas_view(h.meta_tags@),
        strings_view(h.styles@),
        strings_view(h.scripts@),
    )
}

impl Default for HeadContext {
    /// An empty head: no title, UTF-8, and no tags at all.
    fn default() -> (r: HeadContext)
        ensures
            r.title@ == Seq::<char>::empty(),
            r.charset is Utf8,
            r.meta_tags@ == Seq::<MetaTag>::empty(),
            r.scripts@ == Seq::<String>::empty(),
            r.styles@ == Seq::<String>::empty(),
    {
        HeadContext {
            title: String::new(),
            charset: Charset::Utf8,
            meta_tags: Vec::new(),
            scripts: Vec::new(),
            styles: Vec::new(),
        }
    }
}

impl HeadContext {
    /// Append a `<meta name content>` tag.
    pub fn add_meta(&mut self, name: &str, content: &str)
        ensures
            final(self).title == old(self).title,
            final(self).charset == old(self).charset,
            metas_view(final(self).meta_tags@) == metas_view(old(self).meta_tags@).push(
                (name@, content@),
            ),
            final(self).scripts == old(self).scripts,
            final(self).styles == old(self).styles,
    {
        self.meta_tags.push(MetaTag::new(name, content));
        proof {
            assert(metas_view(self.meta_tags@) =~= metas_view(old(self).meta_tags@).push(
                (name@, content@),
            ));
        }
    }

    /// Append a `<script src>` tag.
    pub fn add_script(&mut self, src: &str)
        ensures
            final(self).title == old(self).title,
            final(self).charset == old(self).charset,
            final(self).meta_tags == old(self).meta_tags,
            strings_view(final(self).scripts@) == strings_view(old(self).scripts@).push(src@),
            final(self).styles == old(self).styles,
    {
        self.scripts.push(src.to_owned());
        proof {
            assert(strings_view(self.scripts@) =~= strings_view(old(self).scripts@).push(src@));
        }
    }

    /// Append a stylesheet link.
    pub fn add_style(&mut self, href: &str)
        ensures
            final(self).title == old(self).title,
            final(self).charset == old(self).charset,
            final(self).meta_tags == old(self).meta_tags,
            final(self).scripts == old(self).scripts,
            strings_view(final(self).styles@) == strings_view(old(self).styles@).push(href@),
    {
        self.styles.push(href.to_owned());
        proof {
            assert(strings_view(self.styles@) =~= strings_view(old(self).styles@).push(href@));
        }
    }

    /// Render the head section to its exact text.
    pub fn render(&self) -> (r: String)
        ensures
            r@ == head_html(*self),
    {
        let mut out = String::from_str("<head>\n\n    <title> ");
        out.append(self.title.as_str());
        out.append(" </title>\n    <meta charset=\"");
        out.append(self.charset.as_str());
        out.append("\">\n    ");
        push_metas(&mut out, &self.meta_tags);
        out.append("\n\n    ");
        push_styles(&mut out, &self.styles);
        out.append("\n\n    ");
        push_scripts(&mut out, &self.scripts);
        out.append("\n\n</head>");
        proof {
            assert(out@ =~= head_html(*self));
        }
        out
    }
}

/// Append the rendering of every meta tag, in order.
fn push_metas(out: &mut String, tags: &Vec<MetaTag>)
    ensures
        final(out)@ == old(out)@ + metas_html(metas_view(tags@)),
{
    let ghost full = metas_view(tags@);
    proof {
        assert(full.skip(0) =~= full);
    }
    let n = tags.len();
    for i in 0..n
        invariant
            n == tags@.len(),
            full == metas_view(tags@),
            out@ + metas_html(full.skip(i as int)) =~= old(out)@ + metas_html(full),
    {
        let ghost before = out@;
        out.append("\n    <meta name=\"");
        out.append(tags[i].name.as_str());
        out.append("\" content=\"");
        out.append(tags[i].content.as_str());
        out.append("\">\n    ");
        proof {
            assert(out@ =~= before + meta_html(full[i as int].0, full[i as int].1));
            assert(full.skip(i as int)[0] == full[i as int]);
            assert(full.skip(i as int).drop_first() =~= full.skip(i as int + 1));
            assert(out@ + metas_html(full.skip(i as int + 1)) =~= before + metas_html(
                full.skip(i as int),
            ));
        }
    }
    proof {
        assert(metas_html(full.skip(n as int)) =~= Seq::<char>::empty());
        assert(out@ =~= out@ + metas_html(full.skip(n as int)));
    }
}

/// Append the rendering of every stylesheet link, in order.
fn push_styles(out: &mut String, hrefs: &Vec<String>)
    ensures
        final(out)@ == old(out)@ + styles_html(strings_view(hrefs@)),
{
    let ghost full = strings_view(hrefs@);
    proof {
        assert(full.skip(0) =~= full);
    }
    let n = hrefs.len();
    for i in 0..n
        invariant
            n == hrefs@.len(),
            full == strings_view(hrefs@),
            out@ + styles_html(full.skip(i as int)) =~= old(out)@ + styles_html(full),
    {
        let ghost before = out@;
        out.append("\n    <link rel=\"stylesheet\" href=\"");
        out.append(hrefs[i].as_str());
        out.append("\">\n    ");
        proof {
            assert(out@ =~= before + style_html(full[i as int]));
            assert(full.skip(i as int)[0] == full[i as int]);
            assert(full.skip(i as int).drop_first() =~= full.skip(i as int + 1));
            assert(out@ + styles_html(full.skip(i as int + 1)) =~= before + styles_html(
                full.skip(i as int),
            ));
        }
    }
    proof {
        assert(styles_html(full.skip(n as int)) =~= Seq::<char>::empty());
        assert(out@ =~= out@ + styles_html(full.skip(n as int)));
    }
}

/// Append the rendering of every script tag, in order.
fn push_scripts(out: &mut String, srcs: &Vec<String>)
    ensures
        final(out)@ == old(out)@ + scripts_html(strings_view(srcs@)),
{
    let ghost full = strings_view(srcs@);
    proof {
        assert(full.skip(0) =~= full);
    }
    let n = srcs.len();
    for i in 0..n
        invariant
            n == srcs@.len(),
            full == strings_view(srcs@),
            out@ + scripts_html(full.skip(i as int)) =~= old(out)@ + scripts_html(full),
    {
        let ghost before = out@;
        out.append("\n    <script src=\"");
        out.append(srcs[i].as_str());
        out.append("\"></script>\n    ");
        proof {
            assert(out@ =~= before + script_html(full[i as int]));
            assert(full.skip(i as int)[0] == full[i as int]);
            assert(full.skip(i as int).drop_first() =~= full.skip(i as int + 1));
            assert(out@ + scripts_html(full.skip(i as int + 1)) =~= before + scripts_html(
                full.skip(i as int),
            ));
        }
    }
    proof {
        assert(scripts_html(full.skip(n as int)) =~= Seq::<char>::empty());
        assert(out@ =~= out@ + scripts_html(full.skip(n as int)));
    }
}

/// A full page: language, head section and body text.
#[derive(Debug)]
pub struct HtmlContext {
    pub lang: String,
    pub head: HeadContext,
    pub body: String,
}

impl HtmlContext {
    /// Start building a page; the builder begins with language `en`, an
    /// empty head and no body.
    pub fn builder() -> (r: HtmlContextBuilder)
        ensures
            r.lang@ == "en"@,
            r.head.title@ == Seq::<char>::empty(),
            r.head.charset is Utf8,
            r.head.meta_tags@ == Seq::<MetaTag>::empty(),
            r.head.scripts@ == Seq::<String>::empty(),
            r.head.styles@ == Seq::<String>::empty(),
            r.body is None,
    {
        HtmlContextBuilder::default()
    }

    /// Render the whole document to its exact text.
    pub fn as_html(self) -> (r: String)
        ensures
            r@ == html_doc(self.lang@, head_html(self.head), self.body@),
    {
        let mut out = String::from_str("<!doctype html>\n<html lang=\"");
        out.append(self.lang.as_str());
        out.append("\">\n\n");
        let head = self.head.render();
        out.append(head.as_str());
        out.append("\n\n<body>\n\n");
        out.append(self.body.as_str());
        out.append("\n\n</body>\n\n</html>\n");
        proof {
            assert(out@ =~= html_doc(self.lang@, head_html(self.head), self.body@));
        }
        out
    }
}

/// Builds an `HtmlContext` step by step. The body is handed over as
/// already-rendered text.
#[derive(Debug)]
pub struct HtmlContextBuilder {
    pub lang: String,
    pub head: HeadContext,
    pub body: Option<String>,
}

impl Default for HtmlContextBuilder {
    fn default() -> (r: HtmlContextBuilder)
        ensures
            r.lang@ == "en"@,
            r.head.title@ == Seq::<char>::empty(),
            r.head.charset is Utf8,
            r.head.meta_tags@ == Seq::<MetaTag>::empty(),
            r.head.scripts@ == Seq::<String>::empty(),
            r.head.styles@ == Seq::<String>::empty(),
            r.body is None,
    {
        HtmlContextBuilder { lang: String::from_str("en"), head: HeadContext::default(), body: None }
    }
}

impl HtmlContextBuilder {
    /// Set the document language.
    pub fn lang(self, lang: &str) -> (r: Self)
        ensures
            r.lang@ == lang@,
            r.head == self.head,
            r.body == self.body,
    {
        let mut b = self;
        b.lang = lang.to_owned();
        b
    }

    /// Set the page title.
    pub fn title(self, title: &str) -> (r: Self)
        ensures
            r.lang == self.lang,
            r.head.title@ == title@,
            r.head.charset == self.head.charset,
            r.head.meta_tags == self.head.meta_tags,
            r.head.scripts == self.head.scripts,
            r.head.styles == self.head.styles,
            r.body == self.body,
    {
        let mut b = self;
        b.head.title = title.to_owned();
        b
    }

    /// Set the declared charset.
    pub fn charset(self, charset: &Charset) -> (r: Self)
        ensures
            r.lang == self.lang,
            r.head.title == self.head.title,
            r.head.charset == *charset,
            r.head.meta_tags == self.head.meta_tags,
            r.head.scripts == self.head.scripts,
            r.head.styles == self.head.styles,
            r.body == self.body,
    {
        let mut b = self;
        b.head.charset = *charset;
        b
    }

    /// Set the body text.
    pub fn body(self, body: String) -> (r: Self)
        ensures
            r.lang == self.lang,
            r.head == self.head,
            r.body == Some(body),
    {
        let mut b = self;
        b.body = Some(body);
        b
    }

    /// Append a `<meta name content>` tag to the head.
    pub fn add_meta(self, name: &str, content: &str) -> (r: Self)
        ensures
            r.lang == self.lang,
            r.head.title == self.head.title,
            r.head.charset == self.head.charset,
            metas_view(r.head.meta_tags@) == metas_view(self.head.meta_tags@).push(
                (name@, content@),
            ),
            r.head.scripts == self.head.scripts,
            r.head.styles == self.head.styles,
            r.body == self.body,
    {
        let mut b = self;
        b.head.add_meta(name, content);
        b
    }

    /// Append a `<script src>` tag to the head.
    pub fn add_script(self, src: &str) -> (r: Self)
        ensures
            r.lang == self.lang,
            r.head.title == self.head.title,
            r.head.charset == self.head.charset,
            r.head.meta_tags == self.head.meta_tags,
            strings_view(r.head.scripts@) == strings_view(self.head.scripts@).push(src@),
            r.head.styles == self.head.styles,
            r.body == self.body,
    {
        let mut b = self;
        b.head.add_script(src);
        b
    }

    /// Append a stylesheet link to the head.
    pub fn add_style(self, href: &str) -> (r: Self)
        ensures
            r.lang == self.lang,
            r.head.title == self.head.title,
            r.head.charset == self.head.charset,
            r.head.meta_tags == self.head.meta_tags,
            r.head.scripts == self.head.scripts,
            strings_view(r.head.styles@) == strings_view(self.head.styles@).push(href@),
            r.body == self.body,
    {
        let mut b = self;
        b.head.add_style(href);
        b
    }

    /// Finish: a missing body renders as empty text.
    pub fn build(self) -> (r: HtmlContext)
        ensures
            r.lang == self.lang,
            r.head == self.head,
            self.body matches Some(b) ==> r.body == b,
            self.body is None ==> r.body@ == Seq::<char>::empty(),
    {
        HtmlContext {
            lang: self.lang,
            head: self.head,
            body: match self.body {
                Some(b) => b,
                None => String::new(),
            },
        }
    }
}

} // verus!
