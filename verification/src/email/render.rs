//! How a message is written out: the HTML part and the plain-text part.

use crate::email::content::{Content, ContentView};
use crate::email::markup;
use crate::email::templates::{
    fill, fill_in, locale_code, say, FooterReason, Locale, MAX_SUBJECT_CHARS,
};
use crate::email::wording;
use crate::models::communication::Category;
use crate::text::{
    char_is_control, chars, end_trimmed, end_trimmed_of, is_control, lemma_squeeze_holds, lemma_trim_end, piece, replace, replaced, squeeze, squeezed, text_of, texts, trim_end, trim_end_char,
};
use vstd::prelude::*;

verus! {

/// Inputs shared by every rendering.
#[derive(Debug, Clone)]
pub struct RenderContext {
    /// Public web origin without a trailing slash.
    pub app_base_url: String,
    pub locale: Locale,
    /// Present on messages the recipient can unsubscribe from.
    pub unsubscribe_url: Option<String>,
}

/// `{base}/{locale}{path}`.
pub open spec fn app_path(ctx: RenderContext, path: Seq<char>) -> Seq<char> {
    trim_end_char(ctx.app_base_url@, '/') + "/"@ + locale_code(ctx.locale) + path
}

impl RenderContext {
    /// `{base}/{locale}{path}`.
    pub fn app_url(&self, path: &str) -> (r: String)
        ensures
            r@ == app_path(*self, path@),
    {
        let mut r = end_trimmed_of(self.app_base_url.as_str(), '/');
        r.append("/");
        r.append(self.locale.code());
        r.append(path);
        r
    }
}

/// A rendered message.
#[derive(Debug, Clone, PartialEq)]
pub struct RenderedEmail {
    pub subject: String,
    pub html: String,
    pub text: String,
    /// The unsubscribe link shown in the footer, when the message has one
    /// (the worker turns it into `List-Unsubscribe` headers).
    pub unsubscribe_url: Option<String>,
}

/// The lines under a message.
#[derive(Debug)]
pub struct Footer {
    pub reason: String,
    /// Question, link text and address.
    pub unsubscribe: Option<(String, String, String)>,
    /// Link text and address.
    pub terms: (String, String),
    pub privacy: (String, String),
}

/// What a [`Footer`] says.
pub ghost struct FooterView {
    pub reason: Seq<char>,
    pub unsubscribe: Option<(Seq<char>, Seq<char>, Seq<char>)>,
    pub terms: (Seq<char>, Seq<char>),
    pub privacy: (Seq<char>, Seq<char>),
}

impl View for Footer {
    type V = FooterView;

    open spec fn view(&self) -> FooterView {
        FooterView {
            reason: self.reason@,
            unsubscribe: match self.unsubscribe {
                Some(u) => Some((u.0@, u.1@, u.2@)),
                None => None,
            },
            terms: (self.terms.0@, self.terms.1@),
            privacy: (self.privacy.0@, self.privacy.1@),
        }
    }
}

/// The name of a category of e-mails in `l`.
pub open spec fn category_name(l: Locale, c: Category) -> Seq<char> {
    match c {
        Category::Account => say(l, wording::CATEGORY_ACCOUNT),
        Category::Bands => say(l, wording::CATEGORY_BANDS),
        Category::Announcements => say(l, wording::CATEGORY_ANNOUNCEMENTS),
        Category::ProductUpdates => say(l, wording::CATEGORY_PRODUCT_UPDATES),
        Category::Marketing => say(l, wording::CATEGORY_MARKETING),
        Category::Security => say(l, wording::CATEGORY_SECURITY),
    }
}

/// Why the recipient gets the message, in `l`.
pub open spec fn reason_text(l: Locale, reason: FooterReason) -> Seq<char> {
    match reason {
        FooterReason::Address => say(l, wording::WHY_ADDRESS),
        FooterReason::Account => say(l, wording::WHY_ACCOUNT),
        FooterReason::Security => say(l, wording::WHY_SECURITY),
        FooterReason::Deleted => say(l, wording::WHY_DELETED),
        FooterReason::Critical => say(l, wording::WHY_CRITICAL),
        FooterReason::Billing => say(l, wording::WHY_BILLING),
        FooterReason::Preference(c) => fill(
            say(l, wording::WHY_PREFERENCE),
            "c"@,
            category_name(l, c),
        ),
    }
}

/// The footer of a message: why it was sent, the unsubscribe link when there
/// is one, the terms and the privacy policy.
pub open spec fn footer_of(ctx: RenderContext, reason: FooterReason) -> FooterView {
    let l = ctx.locale;
    FooterView {
        reason: reason_text(l, reason),
        unsubscribe: match ctx.unsubscribe_url {
            Some(url) => Some((say(l, wording::DONT_WANT), say(l, wording::UNSUBSCRIBE), url@)),
            None => None,
        },
        terms: (say(l, wording::TERMS_OF_USE), app_path(ctx, "/legal/terms"@)),
        privacy: (say(l, wording::PRIVACY_POLICY), app_path(ctx, "/legal/privacy"@)),
    }
}

pub fn footer(ctx: &RenderContext, reason: FooterReason) -> (r: Footer)
    ensures
        r@ == footer_of(*ctx, reason),
{
    let l = ctx.locale;
    let reason_text = match reason {
        FooterReason::Address => l.says(wording::WHY_ADDRESS).to_string(),
        FooterReason::Account => l.says(wording::WHY_ACCOUNT).to_string(),
        FooterReason::Security => l.says(wording::WHY_SECURITY).to_string(),
        FooterReason::Deleted => l.says(wording::WHY_DELETED).to_string(),
        FooterReason::Critical => l.says(wording::WHY_CRITICAL).to_string(),
        FooterReason::Billing => l.says(wording::WHY_BILLING).to_string(),
        FooterReason::Preference(category) => {
            let name = match category {
                Category::Account => l.says(wording::CATEGORY_ACCOUNT),
                Category::Bands => l.says(wording::CATEGORY_BANDS),
                Category::Announcements => l.says(wording::CATEGORY_ANNOUNCEMENTS),
                Category::ProductUpdates => l.says(wording::CATEGORY_PRODUCT_UPDATES),
                Category::Marketing => l.says(wording::CATEGORY_MARKETING),
                Category::Security => l.says(wording::CATEGORY_SECURITY),
            };
            fill_in(l.says(wording::WHY_PREFERENCE), "c", name)
        },
    };
    Footer {
        reason: reason_text,
        unsubscribe: match &ctx.unsubscribe_url {
            Some(url) => Some(
                (
                    l.says(wording::DONT_WANT).to_string(),
                    l.says(wording::UNSUBSCRIBE).to_string(),
                    url.clone(),
                ),
            ),
            None => None,
        },
        terms: (l.says(wording::TERMS_OF_USE).to_string(), ctx.app_url("/legal/terms")),
        privacy: (l.says(wording::PRIVACY_POLICY).to_string(), ctx.app_url("/legal/privacy")),
    }
}

// ---------------------------------------------------------------------
// Escaping
// ---------------------------------------------------------------------

/// How a character is written in HTML content and attribute values.
pub open spec fn escape(c: char) -> Seq<char> {
    if c == '&' {
        "&amp;"@
    } else if c == '<' {
        "&lt;"@
    } else if c == '>' {
        "&gt;"@
    } else if c == '"' {
        "&quot;"@
    } else if c == '\'' {
        "&#39;"@
    } else {
        seq![c]
    }
}

/// `s` with every character escaped.
pub open spec fn escaped(s: Seq<char>) -> Seq<char>
    decreases s.len(),
{
    if s.len() == 0 {
        seq![]
    } else {
        escaped(s.drop_last()) + escape(s.last())
    }
}

/// Escapes text for HTML content and attribute values.
pub fn escape_html(value: &str) -> (r: String)
    ensures
        r@ == escaped(value@),
{
    let v = chars(value);
    let mut out = String::new();
    let mut i: usize = 0;
    assert(v@.take(0) =~= seq![]);
    while i < v.len()
        invariant
            i <= v@.len(),
            out@ == escaped(v@.take(i as int)),
        decreases v@.len() - i,
    {
        let c = v[i];
        let ghost before = out@;
        if c == '&' {
            out.append("&amp;");
        } else if c == '<' {
            out.append("&lt;");
        } else if c == '>' {
            out.append("&gt;");
        } else if c == '"' {
            out.append("&quot;");
        } else if c == '\'' {
            out.append("&#39;");
        } else {
            out.push(c);
        }
        proof {
            assert(v@.take(i + 1).drop_last() =~= v@.take(i as int));
            assert(out@ =~= before + escape(c));
        }
        i = i + 1;
    }
    assert(v@.take(i as int) =~= v@);
    out
}

/// Escaped text holds no character that HTML would read as markup or as the
/// end of an attribute value.
pub proof fn escaped_text_is_inert(s: Seq<char>)
    ensures
        forall|i: int|
            0 <= i < escaped(s).len() ==> (#[trigger] escaped(s)[i]) != '<' && escaped(s)[i] != '>'
                && escaped(s)[i] != '"' && escaped(s)[i] != '\'',
    decreases s.len(),
{
    reveal_strlit("&amp;");
    reveal_strlit("&lt;");
    reveal_strlit("&gt;");
    reveal_strlit("&quot;");
    reveal_strlit("&#39;");
    if s.len() > 0 {
        escaped_text_is_inert(s.drop_last());
        let a = escaped(s.drop_last());
        let b = escape(s.last());
        assert forall|i: int| 0 <= i < escaped(s).len() implies (#[trigger] escaped(s)[i]) != '<'
            && escaped(s)[i] != '>' && escaped(s)[i] != '"' && escaped(s)[i] != '\'' by {
            if i < a.len() {
                assert(escaped(s)[i] == a[i]);
            } else {
                assert(escaped(s)[i] == b[i - a.len()]);
            }
        }
    }
}

/// Escaped text with line breaks preserved.
pub open spec fn escaped_lines(s: Seq<char>) -> Seq<char> {
    replace(escaped(s), seq!['\n'], "<br>"@)
}

pub fn escape_multiline(value: &str) -> (r: String)
    ensures
        r@ == escaped_lines(value@),
{
    let r = replaced_newlines(escape_html(value).as_str());
    r
}

fn replaced_newlines(s: &str) -> (r: String)
    ensures
        r@ == replace(s@, seq!['\n'], "<br>"@),
{
    proof {
        reveal_strlit("\n");
        assert("\n"@ =~= seq!['\n']);
    }
    replaced(s, "\n", "<br>")
}

// ---------------------------------------------------------------------
// The subject
// ---------------------------------------------------------------------

/// `s` with a blank in place of every control character.
pub open spec fn without_controls(s: Seq<char>) -> Seq<char> {
    Seq::new(
        s.len(),
        |i: int|
            if is_control(s[i]) {
                ' '
            } else {
                s[i]
            },
    )
}

/// A subject line: one line, bounded. What is too long ends in `...`.
pub open spec fn subject_line(s: Seq<char>) -> Seq<char> {
    let line = squeeze(without_controls(s));
    if line.len() <= MAX_SUBJECT_CHARS {
        line
    } else {
        trim_end(line.take(MAX_SUBJECT_CHARS - 3)) + "..."@
    }
}

/// A subject line: one line, bounded.
pub fn clean_subject(subject: &str) -> (r: String)
    ensures
        r@ == subject_line(subject@),
        r@.len() <= MAX_SUBJECT_CHARS,
{
    let v = chars(subject);
    let mut single = String::new();
    let mut i: usize = 0;
    while i < v.len()
        invariant
            i <= v@.len(),
            single@ =~= without_controls(v@).take(i as int),
        decreases v@.len() - i,
    {
        if char_is_control(v[i]) {
            single.push(' ');
        } else {
            single.push(v[i]);
        }
        i = i + 1;
    }
    assert(single@ =~= without_controls(subject@));
    let line = chars(squeezed(single.as_str()).as_str());
    if line.len() <= MAX_SUBJECT_CHARS {
        text_of(&line)
    } else {
        let cut = piece(&line, 0, MAX_SUBJECT_CHARS - 3);
        assert(cut@ =~= line@.take(MAX_SUBJECT_CHARS - 3));
        let mut r = end_trimmed(cut.as_str());
        r.append("...");
        proof {
            reveal_strlit("...");
            crate::text::lemma_trim_end(cut@);
        }
        r
    }
}

/// A subject is one line, whatever it was made of: it holds no control
/// character, and it is bounded.
pub proof fn subjects_are_single_line_and_bounded(s: Seq<char>)
    ensures
        subject_line(s).len() <= MAX_SUBJECT_CHARS,
        forall|k: int| 0 <= k < subject_line(s).len() ==> !is_control(#[trigger] subject_line(s)[k]),
{
    let fine = |c: char| !is_control(c);
    let line = squeeze(without_controls(s));
    lemma_squeeze_holds(without_controls(s), fine);
    assert(forall|k: int| 0 <= k < line.len() ==> fine(#[trigger] line[k]));
    if line.len() > MAX_SUBJECT_CHARS {
        let cut = line.take(MAX_SUBJECT_CHARS - 3);
        reveal_strlit("...");
        lemma_trim_end(cut);
        let kept = trim_end(cut);
        assert forall|k: int| 0 <= k < kept.len() implies fine(#[trigger] kept[k]) by {
            assert(kept[k] == cut[k]);
            assert(cut[k] == line[k]);
        }
    }
}

// ---------------------------------------------------------------------
// The HTML part
// ---------------------------------------------------------------------

/// `body` and the paragraphs after it.
pub open spec fn html_paragraphs(body: Seq<char>, p: Seq<Seq<char>>) -> Seq<char>
    decreases p.len(),
{
    if p.len() == 0 {
        body
    } else {
        html_paragraphs(body, p.drop_last()) + markup::P_OPEN@ + escaped_lines(p.last())
            + markup::P_CLOSE@
    }
}

/// `body` and the list items after it.
pub open spec fn html_items(body: Seq<char>, p: Seq<Seq<char>>) -> Seq<char>
    decreases p.len(),
{
    if p.len() == 0 {
        body
    } else {
        html_items(body, p.drop_last()) + markup::LI_OPEN@ + escaped(p.last()) + markup::LI_CLOSE@
    }
}

/// The blocks of a message, in HTML.
pub open spec fn html_body(c: ContentView) -> Seq<char> {
    let heading = markup::H1_OPEN@ + escaped(c.heading) + markup::H1_CLOSE@;
    let paragraphs = html_paragraphs(heading, c.paragraphs);
    let code = match c.code {
        Some(code) => paragraphs + markup::CODE_OPEN@ + escaped(code) + markup::CODE_CLOSE@,
        None => paragraphs,
    };
    let items = if c.items.len() > 0 {
        html_items(code + markup::UL_OPEN@, c.items) + markup::UL_CLOSE@
    } else {
        code
    };
    let cta = match c.cta {
        Some((label, url)) => items + markup::CTA_OPEN@ + escaped(url) + markup::CTA_MIDDLE@
            + escaped(label) + markup::CTA_CLOSE@,
        None => items,
    };
    match c.note {
        Some(note) => cta + markup::NOTE_OPEN@ + escaped_lines(note) + markup::P_CLOSE@,
        None => cta,
    }
}

/// `before` and a link after it.
pub open spec fn html_link(before: Seq<char>, url: Seq<char>, label: Seq<char>) -> Seq<char> {
    before + markup::A_OPEN@ + escaped(url) + markup::A_MIDDLE@ + escaped(label) + markup::A_CLOSE@
}

/// The footer, in HTML.
pub open spec fn html_footer(f: FooterView) -> Seq<char> {
    let reason = markup::SMALL_OPEN@ + escaped(f.reason) + markup::P_CLOSE@;
    let unsubscribe = match f.unsubscribe {
        Some((text, label, url)) => html_link(
            reason + markup::SMALL_OPEN@ + escaped(text) + " "@,
            url,
            label,
        ) + markup::P_CLOSE@,
        None => reason,
    };
    let terms = html_link(unsubscribe + markup::LAST_OPEN@, f.terms.1, f.terms.0);
    html_link(terms + markup::SEPARATOR@, f.privacy.1, f.privacy.0) + markup::P_CLOSE@
}

/// The first paragraph that says something: shown by mail clients next to
/// the subject.
pub open spec fn preheader(p: Seq<Seq<char>>) -> Seq<char>
    decreases p.len(),
{
    if p.len() == 0 {
        seq![]
    } else if p[0].len() > 0 {
        p[0]
    } else {
        preheader(p.skip(1))
    }
}

/// The whole HTML part.
pub open spec fn html_of(
    l: Locale,
    subject: Seq<char>,
    c: ContentView,
    f: FooterView,
) -> Seq<char> {
    markup::PAGE_LANG@ + locale_code(l) + markup::PAGE_TITLE@ + escaped(subject)
        + markup::PAGE_PREHEADER@ + escaped(preheader(c.paragraphs)) + markup::PAGE_BODY@
        + html_body(c) + markup::PAGE_FOOT@ + html_footer(f) + markup::PAGE_END@
}

/// Appends a link.
fn push_link(out: &mut String, url: &str, label: &str)
    ensures
        final(out)@ == html_link(old(out)@, url@, label@),
{
    out.append(markup::A_OPEN);
    out.append(escape_html(url).as_str());
    out.append(markup::A_MIDDLE);
    out.append(escape_html(label).as_str());
    out.append(markup::A_CLOSE);
}

fn render_body(content: &Content) -> (r: String)
    ensures
        r@ == html_body(content@),
{
    let mut body = markup::H1_OPEN.to_string();
    body.append(escape_html(content.heading.as_str()).as_str());
    body.append(markup::H1_CLOSE);
    let ghost heading = body@;
    let ghost ps = texts(content.paragraphs@);
    let mut i: usize = 0;
    assert(ps.take(0) =~= seq![]);
    while i < content.paragraphs.len()
        invariant
            ps == texts(content.paragraphs@),
            i <= content.paragraphs@.len(),
            body@ == html_paragraphs(heading, ps.take(i as int)),
        decreases content.paragraphs@.len() - i,
    {
        body.append(markup::P_OPEN);
        body.append(escape_multiline(content.paragraphs[i].as_str()).as_str());
        body.append(markup::P_CLOSE);
        assert(ps.take(i + 1).drop_last() =~= ps.take(i as int));
        i = i + 1;
    }
    assert(ps.take(i as int) =~= ps);
    if let Some(code) = &content.code {
        body.append(markup::CODE_OPEN);
        body.append(escape_html(code.as_str()).as_str());
        body.append(markup::CODE_CLOSE);
    }
    if content.items.len() > 0 {
        body.append(markup::UL_OPEN);
        let ghost start = body@;
        let ghost items = texts(content.items@);
        let mut k: usize = 0;
        assert(items.take(0) =~= seq![]);
        while k < content.items.len()
            invariant
                items == texts(content.items@),
                k <= content.items@.len(),
                body@ == html_items(start, items.take(k as int)),
            decreases content.items@.len() - k,
        {
            body.append(markup::LI_OPEN);
            body.append(escape_html(content.items[k].as_str()).as_str());
            body.append(markup::LI_CLOSE);
            assert(items.take(k + 1).drop_last() =~= items.take(k as int));
            k = k + 1;
        }
        assert(items.take(k as int) =~= items);
        body.append(markup::UL_CLOSE);
    }
    if let Some(cta) = &content.cta {
        body.append(markup::CTA_OPEN);
        body.append(escape_html(cta.1.as_str()).as_str());
        body.append(markup::CTA_MIDDLE);
        body.append(escape_html(cta.0.as_str()).as_str());
        body.append(markup::CTA_CLOSE);
    }
    if let Some(note) = &content.note {
        body.append(markup::NOTE_OPEN);
        body.append(escape_multiline(note.as_str()).as_str());
        body.append(markup::P_CLOSE);
    }
    body
}

fn render_footer(footer: &Footer) -> (r: String)
    ensures
        r@ == html_footer(footer@),
{
    let mut foot = markup::SMALL_OPEN.to_string();
    foot.append(escape_html(footer.reason.as_str()).as_str());
    foot.append(markup::P_CLOSE);
    if let Some(u) = &footer.unsubscribe {
        foot.append(markup::SMALL_OPEN);
        foot.append(escape_html(u.0.as_str()).as_str());
        foot.append(" ");
        push_link(&mut foot, u.2.as_str(), u.1.as_str());
        foot.append(markup::P_CLOSE);
    }
    foot.append(markup::LAST_OPEN);
    push_link(&mut foot, footer.terms.1.as_str(), footer.terms.0.as_str());
    foot.append(markup::SEPARATOR);
    push_link(&mut foot, footer.privacy.1.as_str(), footer.privacy.0.as_str());
    foot.append(markup::P_CLOSE);
    foot
}

fn preheader_of(p: &Vec<String>) -> (r: String)
    ensures
        r@ == preheader(texts(p@)),
{
    let ghost all = texts(p@);
    let mut i: usize = 0;
    assert(all.skip(0) =~= all);
    while i < p.len()
        invariant
            all == texts(p@),
            i <= p@.len(),
            preheader(all) == preheader(all.skip(i as int)),
        decreases p@.len() - i,
    {
        assert(all.skip(i as int)[0] == all[i as int]);
        assert(all.skip(i as int).skip(1) =~= all.skip(i + 1));
        if !p[i].as_str().is_empty() {
            return p[i].clone();
        }
        i = i + 1;
    }
    let r = String::new();
    assert(r@ =~= seq![]);
    r
}

/// Writes the HTML part.
pub fn render_html(ctx: &RenderContext, subject: &str, content: &Content, footer: &Footer) -> (r:
    String)
    ensures
        r@ == html_of(ctx.locale, subject@, content@, footer@),
{
    let body = render_body(content);
    let foot = render_footer(footer);
    let pre = preheader_of(&content.paragraphs);
    let mut page = markup::PAGE_LANG.to_string();
    page.append(ctx.locale.code());
    page.append(markup::PAGE_TITLE);
    page.append(escape_html(subject).as_str());
    page.append(markup::PAGE_PREHEADER);
    page.append(escape_html(pre.as_str()).as_str());
    page.append(markup::PAGE_BODY);
    page.append(body.as_str());
    page.append(markup::PAGE_FOOT);
    page.append(foot.as_str());
    page.append(markup::PAGE_END);
    page
}

// ---------------------------------------------------------------------
// The plain-text part
// ---------------------------------------------------------------------

pub open spec fn text_paragraphs(before: Seq<char>, p: Seq<Seq<char>>) -> Seq<char>
    decreases p.len(),
{
    if p.len() == 0 {
        before
    } else {
        text_paragraphs(before, p.drop_last()) + p.last() + "\n\n"@
    }
}

pub open spec fn text_items(before: Seq<char>, p: Seq<Seq<char>>) -> Seq<char>
    decreases p.len(),
{
    if p.len() == 0 {
        before
    } else {
        text_items(before, p.drop_last()) + "- "@ + p.last() + "\n"@
    }
}

/// The plain-text part of a message: the same blocks, nothing escaped.
pub open spec fn message_text(c: ContentView, f: FooterView) -> Seq<char> {
    let paragraphs = text_paragraphs(c.heading + "\n\n"@, c.paragraphs);
    let code = match c.code {
        Some(code) => paragraphs + "    "@ + code + "\n\n"@,
        None => paragraphs,
    };
    let items = if c.items.len() > 0 {
        text_items(code, c.items) + "\n"@
    } else {
        code
    };
    let cta = match c.cta {
        Some((label, url)) => items + label + ": "@ + url + "\n\n"@,
        None => items,
    };
    let note = match c.note {
        Some(note) => cta + note + "\n\n"@,
        None => cta,
    };
    let reason = note + "--\n"@ + f.reason + "\n"@;
    let unsubscribe = match f.unsubscribe {
        Some((text, label, url)) => reason + text + " "@ + label + ": "@ + url + "\n"@,
        None => reason,
    };
    unsubscribe + f.terms.0 + ": "@ + f.terms.1 + "\n"@ + f.privacy.0 + ": "@ + f.privacy.1 + "\n"@
}

/// Writes the plain-text part.
pub fn render_text(content: &Content, footer: &Footer) -> (r: String)
    ensures
        r@ == message_text(content@, footer@),
{
    let mut out = content.heading.clone();
    out.append("\n\n");
    let ghost start = out@;
    let ghost ps = texts(content.paragraphs@);
    let mut i: usize = 0;
    assert(ps.take(0) =~= seq![]);
    while i < content.paragraphs.len()
        invariant
            ps == texts(content.paragraphs@),
            i <= content.paragraphs@.len(),
            out@ == text_paragraphs(start, ps.take(i as int)),
        decreases content.paragraphs@.len() - i,
    {
        out.append(content.paragraphs[i].as_str());
        out.append("\n\n");
        assert(ps.take(i + 1).drop_last() =~= ps.take(i as int));
        i = i + 1;
    }
    assert(ps.take(i as int) =~= ps);
    if let Some(code) = &content.code {
        out.append("    ");
        out.append(code.as_str());
        out.append("\n\n");
    }
    let ghost before = out@;
    let ghost items = texts(content.items@);
    let mut k: usize = 0;
    assert(items.take(0) =~= seq![]);
    while k < content.items.len()
        invariant
            items == texts(content.items@),
            k <= content.items@.len(),
            out@ == text_items(before, items.take(k as int)),
        decreases content.items@.len() - k,
    {
        out.append("- ");
        out.append(content.items[k].as_str());
        out.append("\n");
        assert(items.take(k + 1).drop_last() =~= items.take(k as int));
        k = k + 1;
    }
    assert(items.take(k as int) =~= items);
    if content.items.len() > 0 {
        out.append("\n");
    }
    if let Some(cta) = &content.cta {
        out.append(cta.0.as_str());
        out.append(": ");
        out.append(cta.1.as_str());
        out.append("\n\n");
    }
    if let Some(note) = &content.note {
        out.append(note.as_str());
        out.append("\n\n");
    }
    out.append("--\n");
    out.append(footer.reason.as_str());
    out.append("\n");
    if let Some(u) = &footer.unsubscribe {
        out.append(u.0.as_str());
        out.append(" ");
        out.append(u.1.as_str());
        out.append(": ");
        out.append(u.2.as_str());
        out.append("\n");
    }
    out.append(footer.terms.0.as_str());
    out.append(": ");
    out.append(footer.terms.1.as_str());
    out.append("\n");
    out.append(footer.privacy.0.as_str());
    out.append(": ");
    out.append(footer.privacy.1.as_str());
    out.append("\n");
    out
}

} // verus!
