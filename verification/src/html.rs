//! Cleaning of a page's markup before it is handed to a language model.
//!
//! Three rule tables of growing severity are applied by a streaming rewriter;
//! what each rule does to an element it matches is decided here. Where the
//! rewriter fails, the markup is cleaned by cutting out the serialised script
//! and style elements.

use vstd::prelude::*;
use crate::strings::{
    ascii_lowercase, remove_occurrences, str_eq, str_starts_with, texts, to_lowercase,
    unicode_lowercase, without_occurrences,
};
use crate::text::is_prefix;

verus! {

/// An attribute as the rewriter hands it out: its name in ASCII lowercase, and
/// its value.
pub type Attr = (Seq<char>, Seq<char>);

// ---------------------------------------------------------------------------
// Cutting out script and style elements
// ---------------------------------------------------------------------------

/// The serialised elements of the document parsed from `html` that `selector`
/// matches, in document order, as `scraper` finds and serialises them; `None`
/// where `selector` is no selector.
pub uninterp spec fn selected_outer_html(html: Seq<char>, selector: Seq<char>) -> Option<
    Seq<Seq<char>>,
>;

/// `scraper::Html::parse_document`, `Html::select` and `ElementRef::html`:
/// parses the document, and serialises each element that the selector matches.
/// `None` where `scraper::Selector::parse` refuses the selector.
#[verifier::external_body]
fn select_outer_html(html: &str, selector: &str) -> (r: Option<Vec<String>>)
    ensures
        match r {
            Some(v) => selected_outer_html(html@, selector@) == Some(texts(v@)),
            None => selected_outer_html(html@, selector@) is None,
        },
{
    let parsed = scraper::Selector::parse(selector).ok()?;
    Some(scraper::Html::parse_document(html).select(&parsed).map(|e| e.html()).collect())
}

/// The serialised elements that `selector` matches in `html`; none where the
/// selector is refused.
pub open spec fn pieces(html: Seq<char>, selector: Seq<char>) -> Seq<Seq<char>> {
    match selected_outer_html(html, selector) {
        Some(p) => p,
        None => Seq::empty(),
    }
}

/// `text` after each of `cut`, in order, has been taken out of it wherever it
/// occurs.
pub open spec fn strip_each(text: Seq<char>, cut: Seq<Seq<char>>) -> Seq<char>
    decreases cut.len(),
{
    if cut.len() == 0 {
        text
    } else {
        strip_each(without_occurrences(text, cut[0]), cut.drop_first())
    }
}

/// `html` without the text of its script elements, then without the text of
/// its style elements.
pub open spec fn cleaned_raw(html: Seq<char>) -> Seq<char> {
    strip_each(strip_each(html, pieces(html, "script"@)), pieces(html, "style"@))
}

/// Take each of `cut`, in order, out of a text wherever it occurs.
pub fn strip_all(text: String, cut: &Vec<String>) -> (r: String)
    ensures
        r@ == strip_each(text@, texts(cut@)),
{
    let ghost all = texts(cut@);
    let mut acc = text;
    let mut i: usize = 0;
    assert(all.skip(0) =~= all);
    while i < cut.len()
        invariant
            i <= cut@.len(),
            all == texts(cut@),
            strip_each(acc@, all.skip(i as int)) == strip_each(text@, all),
        decreases cut@.len() - i,
    {
        proof {
            let rest = all.skip(i as int);
            assert(rest[0] == cut@[i as int]@);
            assert(rest.drop_first() =~= all.skip(i + 1));
        }
        acc = remove_occurrences(acc.as_str(), cut[i].as_str());
        i = i + 1;
    }
    acc
}

/// The elements that were selected, or none where the selector was refused.
pub fn pieces_or_none(selected: Option<Vec<String>>) -> (r: Vec<String>)
    ensures
        texts(r@) == (match selected {
            Some(v) => texts(v@),
            None => Seq::empty(),
        }),
{
    match selected {
        Some(v) => v,
        None => {
            let v: Vec<String> = Vec::new();
            assert(texts(v@) =~= Seq::<Seq<char>>::empty());
            v
        },
    }
}

fn select_pieces(html: &str, selector: &str) -> (r: Vec<String>)
    ensures
        texts(r@) == pieces(html@, selector@),
{
    pieces_or_none(select_outer_html(html, selector))
}

/// Cut the serialised script elements, then the serialised style elements,
/// out of a text: each is taken out wherever it occurs, in the order given.
pub fn cut_pieces(html: &str, scripts: &Vec<String>, styles: &Vec<String>) -> (r: String)
    ensures
        r@ == strip_each(strip_each(html@, texts(scripts@)), texts(styles@)),
{
    let without_scripts = strip_all(html.to_owned(), scripts);
    strip_all(without_scripts, styles)
}

/// Clean the html removing css and js, by cutting the serialised script and
/// style elements out of the text.
pub fn clean_html_raw(html: &str) -> (r: String)
    ensures
        r@ == cleaned_raw(html@),
{
    let scripts = select_pieces(html, "script");
    let styles = select_pieces(html, "style");
    cut_pieces(html, &scripts, &styles)
}

// ---------------------------------------------------------------------------
// What a rule does to an element
// ---------------------------------------------------------------------------

/// What a rule does with an element that its selector matches.
#[derive(Debug, Clone, Copy, PartialEq, Eq, Structural)]
pub enum ElementAction {
    /// Remove the element and its content.
    Remove,
    /// Remove a `meta` element unless it is named `title` or `description`.
    KeepDescriptiveMeta,
    /// Remove an image whose source is inline image data.
    RemoveInlineImage,
    /// Remove a `meta` element unless it is named `viewport` or `charset`.
    KeepLayoutMeta,
    /// Remove every attribute but `id`, `data-` and `class`.
    StripAttributes,
}

/// A selector and what is done to the elements it matches.
pub struct CleanRule {
    pub selector: String,
    pub action: ElementAction,
}

impl View for CleanRule {
    type V = (Seq<char>, ElementAction);

    open spec fn view(&self) -> (Seq<char>, ElementAction) {
        (self.selector@, self.action)
    }
}

/// The views of a table of rules.
pub open spec fn rule_views(rules: Seq<CleanRule>) -> Seq<(Seq<char>, ElementAction)> {
    rules.map_values(|r: CleanRule| r@)
}

/// The value of the first attribute called `name`.
pub open spec fn attribute_value(attrs: Seq<Attr>, name: Seq<char>) -> Option<Seq<char>>
    decreases attrs.len(),
{
    if attrs.len() == 0 {
        None
    } else if attrs[0].0 == name {
        Some(attrs[0].1)
    } else {
        attribute_value(attrs.drop_first(), name)
    }
}

/// `attrs` without the first attribute called `name`.
pub open spec fn without_first(attrs: Seq<Attr>, name: Seq<char>) -> Seq<Attr>
    decreases attrs.len(),
{
    if attrs.len() == 0 {
        attrs
    } else if attrs[0].0 == name {
        attrs.drop_first()
    } else {
        seq![attrs[0]] + without_first(attrs.drop_first(), name)
    }
}

/// A `meta` element with this `name` attribute stays under the first two
/// tables.
pub open spec fn keeps_descriptive_meta(name: Option<Seq<char>>) -> bool {
    match name {
        Some(n) => n == "title"@ || n == "description"@,
        None => false,
    }
}

/// A `meta` element with this `name` attribute stays under the severest table.
pub open spec fn keeps_layout_meta(name: Option<Seq<char>>) -> bool {
    match name {
        Some(n) => unicode_lowercase(n) == "viewport"@ || unicode_lowercase(n) == "charset"@,
        None => false,
    }
}

/// An image with this `src` attribute holds its data inline.
pub open spec fn is_inline_image(src: Option<Seq<char>>) -> bool {
    match src {
        Some(s) => is_prefix("data:image"@, s),
        None => false,
    }
}

/// An attribute of this name stays under the severest table.
pub open spec fn keeps_attribute(name: Seq<char>) -> bool {
    name == "id"@ || name == "data-"@ || name == "class"@
}

/// The test that an attribute passes when it stays under the severest table.
pub open spec fn keeps() -> spec_fn(Attr) -> bool {
    |a: Attr| keeps_attribute(a.0)
}

/// The attributes that stay under the severest table.
pub open spec fn kept_attributes(attrs: Seq<Attr>) -> Seq<Attr> {
    attrs.filter(keeps())
}

/// Whether `action` removes an element with these attributes.
pub open spec fn removes(action: ElementAction, attrs: Seq<Attr>) -> bool {
    match action {
        ElementAction::Remove => true,
        ElementAction::KeepDescriptiveMeta => !keeps_descriptive_meta(
            attribute_value(attrs, "name"@),
        ),
        ElementAction::RemoveInlineImage => is_inline_image(attribute_value(attrs, "src"@)),
        ElementAction::KeepLayoutMeta => !keeps_layout_meta(attribute_value(attrs, "name"@)),
        ElementAction::StripAttributes => false,
    }
}

/// The attributes that `action` leaves on an element.
pub open spec fn attributes_after(action: ElementAction, attrs: Seq<Attr>) -> Seq<Attr> {
    match action {
        ElementAction::StripAttributes => kept_attributes(attrs),
        _ => attrs,
    }
}

/// Whether a `meta` element with this `name` attribute stays under the first
/// two tables.
pub fn meta_is_descriptive(name: &Option<String>) -> (r: bool)
    ensures
        r == keeps_descriptive_meta(option_text(*name)),
{
    match name {
        Some(n) => str_eq(n.as_str(), "title") || str_eq(n.as_str(), "description"),
        None => false,
    }
}

/// Whether a `meta` element with this `name` attribute stays under the
/// severest table.
pub fn meta_is_layout(name: &Option<String>) -> (r: bool)
    ensures
        r == keeps_layout_meta(option_text(*name)),
{
    match name {
        Some(n) => {
            let lower = to_lowercase(n.as_str());
            str_eq(lower.as_str(), "viewport") || str_eq(lower.as_str(), "charset")
        },
        None => false,
    }
}

/// Whether an image with this `src` attribute holds its data inline.
pub fn image_is_inline(src: &Option<String>) -> (r: bool)
    ensures
        r == is_inline_image(option_text(*src)),
{
    match src {
        Some(s) => str_starts_with(s.as_str(), "data:image"),
        None => false,
    }
}

/// Whether an attribute of this name stays under the severest table.
pub fn attribute_is_kept(name: &str) -> (r: bool)
    ensures
        r == keeps_attribute(name@),
{
    str_eq(name, "id") || str_eq(name, "data-") || str_eq(name, "class")
}

/// The text of an optional string.
pub open spec fn option_text(s: Option<String>) -> Option<Seq<char>> {
    match s {
        Some(t) => Some(t@),
        None => None,
    }
}

// ---------------------------------------------------------------------------
// The rewriter's element
// ---------------------------------------------------------------------------

/// `lol_html::html_content::Element`: an element that the rewriter hands to a
/// handler. Nothing of its inside is known here.
#[verifier::external_type_specification]
#[verifier::external_body]
pub struct ExElement<'r, 't>(lol_html::html_content::Element<'r, 't>);

/// `lol_html::html_content::Comment`: a comment that the rewriter hands to a
/// handler. Nothing of its inside is known here.
#[verifier::external_type_specification]
#[verifier::external_body]
pub struct ExComment<'i>(lol_html::html_content::Comment<'i>);

/// The attributes that an element of the rewriter holds, in order: for each
/// the name as `Attribute::name` gives it and the value as `Attribute::value`
/// gives it.
pub uninterp spec fn element_attributes(el: &lol_html::html_content::Element) -> Seq<Attr>;

/// Whether an element of the rewriter is marked as removed.
pub uninterp spec fn element_removed(el: &lol_html::html_content::Element) -> bool;

/// `Element::remove` marks the element as removed and leaves its attributes.
pub assume_specification<'r, 't>[ lol_html::html_content::Element::<'r, 't>::remove ](
    el: &mut lol_html::html_content::Element<'r, 't>,
)
    ensures
        element_removed(final(el)),
        element_attributes(final(el)) == element_attributes(old(el)),
;

/// `Element::get_attribute` makes `name` ASCII lowercase and gives the value of
/// the first attribute of that name.
pub assume_specification<'r, 't>[ lol_html::html_content::Element::<'r, 't>::get_attribute ](
    el: &lol_html::html_content::Element<'r, 't>,
    name: &str,
) -> (r: Option<String>)
    ensures
        option_text(r) == attribute_value(element_attributes(el), ascii_lowercase(name@)),
;

/// `Element::remove_attribute` makes `name` ASCII lowercase and takes out the
/// first attribute of that name, if there is one.
pub assume_specification<'r, 't>[ lol_html::html_content::Element::<'r, 't>::remove_attribute ](
    el: &mut lol_html::html_content::Element<'r, 't>,
    name: &str,
)
    ensures
        element_attributes(final(el)) == without_first(
            element_attributes(old(el)),
            ascii_lowercase(name@),
        ),
        element_removed(final(el)) == element_removed(old(el)),
;

/// `Element::attributes` and `Attribute::name`: the names of the element's
/// attributes, in order. `Attribute::name` gives a name in ASCII lowercase.
#[verifier::external_body]
fn attribute_names(el: &lol_html::html_content::Element) -> (names: Vec<String>)
    ensures
        texts(names@) == element_attributes(el).map_values(|a: Attr| a.0),
        forall|i: int|
            0 <= i < names@.len() ==> ascii_lowercase(#[trigger] names@[i]@) == names@[i]@,
{
    el.attributes().iter().map(|a| a.name()).collect()
}

/// Whether a comment of the rewriter is marked as removed, as
/// `Comment::removed` tells: a comment that is marked does not reach the
/// output.
pub uninterp spec fn comment_removed(c: &lol_html::html_content::Comment) -> bool;

/// `Comment::remove` marks the comment as removed.
pub assume_specification<'i>[ lol_html::html_content::Comment::<'i>::remove ](
    c: &mut lol_html::html_content::Comment<'i>,
)
    ensures
        comment_removed(final(c)),
;

proof fn lemma_lowercase_name()
    ensures
        ascii_lowercase("name"@) == "name"@,
        ascii_lowercase("src"@) == "src"@,
{
    reveal_strlit("name");
    reveal_strlit("src");
    assert(ascii_lowercase("name"@) =~= "name"@);
    assert(ascii_lowercase("src"@) =~= "src"@);
}

proof fn lemma_without_first_split(prefix: Seq<Attr>, rest: Seq<Attr>, name: Seq<char>)
    requires
        forall|i: int| 0 <= i < prefix.len() ==> prefix[i].0 != name,
        rest.len() > 0,
        rest[0].0 == name,
    ensures
        without_first(prefix + rest, name) == prefix + rest.drop_first(),
    decreases prefix.len(),
{
    let all = prefix + rest;
    if prefix.len() == 0 {
        assert(all =~= rest);
        assert(prefix + rest.drop_first() =~= rest.drop_first());
    } else {
        assert(all[0] == prefix[0]);
        assert(all.drop_first() =~= prefix.drop_first() + rest);
        lemma_without_first_split(prefix.drop_first(), rest, name);
        assert(seq![prefix[0]] + (prefix.drop_first() + rest.drop_first()) =~= prefix
            + rest.drop_first());
    }
}

proof fn lemma_kept_step(attrs: Seq<Attr>, p: int)
    requires
        0 <= p < attrs.len(),
    ensures
        kept_attributes(attrs.take(p + 1)) == if keeps_attribute(attrs[p].0) {
            kept_attributes(attrs.take(p)).push(attrs[p])
        } else {
            kept_attributes(attrs.take(p))
        },
{
    reveal(Seq::filter);
    assert(attrs.take(p + 1).drop_last() =~= attrs.take(p));
}

proof fn lemma_kept_names(attrs: Seq<Attr>)
    ensures
        forall|i: int|
            0 <= i < kept_attributes(attrs).len() ==> keeps_attribute(
                #[trigger] kept_attributes(attrs)[i].0,
            ),
{
    assert forall|i: int| 0 <= i < kept_attributes(attrs).len() implies keeps_attribute(
        #[trigger] kept_attributes(attrs)[i].0,
    ) by {
        attrs.lemma_filter_pred(keeps(), i);
    }
}

/// Apply what `action` asks to an element that the rule's selector matched.
pub fn apply_action(action: ElementAction, el: &mut lol_html::html_content::Element)
    ensures
        element_removed(final(el)) == (element_removed(old(el)) || removes(
            action,
            element_attributes(old(el)),
        )),
        element_attributes(final(el)) == attributes_after(action, element_attributes(old(el))),
{
    proof {
        lemma_lowercase_name();
    }
    match action {
        ElementAction::Remove => {
            el.remove();
        },
        ElementAction::KeepDescriptiveMeta => {
            let name = el.get_attribute("name");
            if !meta_is_descriptive(&name) {
                el.remove();
            }
        },
        ElementAction::RemoveInlineImage => {
            let src = el.get_attribute("src");
            if image_is_inline(&src) {
                el.remove();
            }
        },
        ElementAction::KeepLayoutMeta => {
            let name = el.get_attribute("name");
            if !meta_is_layout(&name) {
                el.remove();
            }
        },
        ElementAction::StripAttributes => {
            strip_attributes(el);
        },
    }
}

fn strip_attributes(el: &mut lol_html::html_content::Element)
    ensures
        element_removed(final(el)) == element_removed(old(el)),
        element_attributes(final(el)) == kept_attributes(element_attributes(old(el))),
{
    let names = attribute_names(el);
    let ghost before = element_attributes(el);
    let ghost was_removed = element_removed(el);
    let mut p: usize = 0;
    proof {
        assert(texts(names@).len() == names@.len());
        assert(before.map_values(|a: Attr| a.0).len() == before.len());
        assert(before.take(0) =~= Seq::<Attr>::empty());
        reveal(Seq::filter);
        assert(kept_attributes(before.take(0)) =~= Seq::<Attr>::empty());
        assert(kept_attributes(before.take(0)) + before.skip(0) =~= before);
    }
    while p < names.len()
        invariant
            p <= names@.len(),
            names@.len() == before.len(),
            texts(names@) == before.map_values(|a: Attr| a.0),
            forall|i: int|
                0 <= i < names@.len() ==> ascii_lowercase(#[trigger] names@[i]@) == names@[i]@,
            element_removed(el) == was_removed,
            element_attributes(el) == kept_attributes(before.take(p as int)) + before.skip(
                p as int,
            ),
        decreases names@.len() - p,
    {
        let name = names[p].as_str();
        proof {
            assert(texts(names@)[p as int] == names@[p as int]@);
            assert(before.map_values(|a: Attr| a.0)[p as int] == before[p as int].0);
            assert(name@ == before[p as int].0);
            lemma_kept_step(before, p as int);
        }
        if !attribute_is_kept(name) {
            proof {
                let prefix = kept_attributes(before.take(p as int));
                let rest = before.skip(p as int);
                lemma_kept_names(before.take(p as int));
                assert(rest[0] == before[p as int]);
                lemma_without_first_split(prefix, rest, name@);
                assert(rest.drop_first() =~= before.skip(p + 1));
            }
            el.remove_attribute(name);
        } else {
            proof {
                let prefix = kept_attributes(before.take(p as int));
                assert(prefix.push(before[p as int]) + before.skip(p + 1) =~= prefix
                    + before.skip(p as int));
            }
        }
        p = p + 1;
    }
    proof {
        assert(before.take(before.len() as int) =~= before);
        assert(kept_attributes(before) + before.skip(before.len() as int) =~= kept_attributes(
            before,
        ));
    }
}

/// Remove a comment from the document: whatever the comment was, it is
/// marked as removed afterwards.
fn drop_comment(c: &mut lol_html::html_content::Comment)
    ensures
        comment_removed(final(c)),
{
    c.remove();
}

// ---------------------------------------------------------------------------
// The rule tables and the rewriter
// ---------------------------------------------------------------------------

/// What `lol_html::rewrite_str` makes of `html` under a table of rules: each
/// selector is parsed by `lol_html::Selector`, each element that a selector
/// matches is handed to `apply_action` with the rule's action, and every
/// comment of the document is removed. `None` where a selector is refused or
/// the rewriter reports an error.
pub uninterp spec fn rewritten(html: Seq<char>, rules: Seq<(Seq<char>, ElementAction)>) -> Option<
    Seq<char>,
>;

/// `lol_html::rewrite_str` with one element handler for each rule and one
/// handler for the document's comments.
#[verifier::external_body]
fn rewrite(html: &str, rules: &Vec<CleanRule>) -> (r: Option<String>)
    ensures
        option_text(r) == rewritten(html@, rule_views(rules@)),
{
    let mut on_elements = Vec::new();
    for rule in rules.iter() {
        let (selector, action) = (rule.selector.parse::<lol_html::Selector>().ok()?, rule.action);
        let handler = lol_html::ElementContentHandlers::default().element(move |el| {
            apply_action(action, el);
            Ok(())
        });
        on_elements.push((std::borrow::Cow::Owned(selector), handler));
    }
    let on_comments = lol_html::DocumentContentHandlers::default().comments(|c| {
        drop_comment(c);
        Ok(())
    });
    lol_html::rewrite_str(html, lol_html::RewriteStrSettings { element_content_handlers: on_elements, document_content_handlers: vec![on_comments], ..Default::default() }).ok()
}

/// The first table: scripts, styles, frames, hidden and advertising elements
/// go, and every `meta` element that does not describe the page.
pub open spec fn base_table() -> Seq<(Seq<char>, ElementAction)> {
    seq![
        ("script"@, ElementAction::Remove),
        ("style"@, ElementAction::Remove),
        ("link"@, ElementAction::Remove),
        ("iframe"@, ElementAction::Remove),
        ("[style*='display:none']"@, ElementAction::Remove),
        ("[id*='ad']"@, ElementAction::Remove),
        ("[class*='ad']"@, ElementAction::Remove),
        ("[id*='tracking']"@, ElementAction::Remove),
        ("[class*='tracking']"@, ElementAction::Remove),
        ("meta"@, ElementAction::KeepDescriptiveMeta),
    ]
}

/// The second table: the first, and media elements and inline images go too.
pub open spec fn slim_table() -> Seq<(Seq<char>, ElementAction)> {
    seq![
        ("script"@, ElementAction::Remove),
        ("style"@, ElementAction::Remove),
        ("svg"@, ElementAction::Remove),
        ("noscript"@, ElementAction::Remove),
        ("link"@, ElementAction::Remove),
        ("iframe"@, ElementAction::Remove),
        ("canvas"@, ElementAction::Remove),
        ("video"@, ElementAction::Remove),
        ("img"@, ElementAction::RemoveInlineImage),
        ("picture"@, ElementAction::RemoveInlineImage),
        ("[style*='display:none']"@, ElementAction::Remove),
        ("[id*='ad']"@, ElementAction::Remove),
        ("[class*='ad']"@, ElementAction::Remove),
        ("[id*='tracking']"@, ElementAction::Remove),
        ("[class*='tracking']"@, ElementAction::Remove),
        ("meta"@, ElementAction::KeepDescriptiveMeta),
    ]
}

/// The severest table: navigation and footers go, `meta` elements but those on
/// layout go, and every element loses its attributes but `id`, `data-` and
/// `class`.
pub open spec fn full_table() -> Seq<(Seq<char>, ElementAction)> {
    seq![
        ("nav, footer"@, ElementAction::Remove),
        ("meta"@, ElementAction::KeepLayoutMeta),
        ("*"@, ElementAction::StripAttributes),
    ]
}

fn push_rule(rules: &mut Vec<CleanRule>, selector: &str, action: ElementAction)
    ensures
        rule_views(final(rules)@) == rule_views(old(rules)@).push((selector@, action)),
{
    rules.push(CleanRule { selector: selector.to_owned(), action });
    assert(rule_views(rules@) =~= rule_views(old(rules)@).push((selector@, action)));
}

fn push_tracking_rules(rules: &mut Vec<CleanRule>)
    ensures
        rule_views(final(rules)@) == rule_views(old(rules)@) + seq![
            ("[style*='display:none']"@, ElementAction::Remove),
            ("[id*='ad']"@, ElementAction::Remove),
            ("[class*='ad']"@, ElementAction::Remove),
            ("[id*='tracking']"@, ElementAction::Remove),
            ("[class*='tracking']"@, ElementAction::Remove),
            ("meta"@, ElementAction::KeepDescriptiveMeta),
        ],
{
    push_rule(rules, "[style*='display:none']", ElementAction::Remove);
    push_rule(rules, "[id*='ad']", ElementAction::Remove);
    push_rule(rules, "[class*='ad']", ElementAction::Remove);
    push_rule(rules, "[id*='tracking']", ElementAction::Remove);
    push_rule(rules, "[class*='tracking']", ElementAction::Remove);
    push_rule(rules, "meta", ElementAction::KeepDescriptiveMeta);
    assert(rule_views(rules@) =~= rule_views(old(rules)@) + seq![
        ("[style*='display:none']"@, ElementAction::Remove),
        ("[id*='ad']"@, ElementAction::Remove),
        ("[class*='ad']"@, ElementAction::Remove),
        ("[id*='tracking']"@, ElementAction::Remove),
        ("[class*='tracking']"@, ElementAction::Remove),
        ("meta"@, ElementAction::KeepDescriptiveMeta),
    ]);
}

/// The first table of rules.
pub fn base_rules() -> (rules: Vec<CleanRule>)
    ensures
        rule_views(rules@) == base_table(),
{
    let mut rules: Vec<CleanRule> = Vec::new();
    assert(rule_views(rules@) =~= Seq::empty());
    push_rule(&mut rules, "script", ElementAction::Remove);
    push_rule(&mut rules, "style", ElementAction::Remove);
    push_rule(&mut rules, "link", ElementAction::Remove);
    push_rule(&mut rules, "iframe", ElementAction::Remove);
    push_tracking_rules(&mut rules);
    assert(rule_views(rules@) =~= base_table());
    rules
}

/// The second table of rules.
pub fn slim_rules() -> (rules: Vec<CleanRule>)
    ensures
        rule_views(rules@) == slim_table(),
{
    let mut rules: Vec<CleanRule> = Vec::new();
    assert(rule_views(rules@) =~= Seq::empty());
    push_rule(&mut rules, "script", ElementAction::Remove);
    push_rule(&mut rules, "style", ElementAction::Remove);
    push_rule(&mut rules, "svg", ElementAction::Remove);
    push_rule(&mut rules, "noscript", ElementAction::Remove);
    push_rule(&mut rules, "link", ElementAction::Remove);
    push_rule(&mut rules, "iframe", ElementAction::Remove);
    push_rule(&mut rules, "canvas", ElementAction::Remove);
    push_rule(&mut rules, "video", ElementAction::Remove);
    push_rule(&mut rules, "img", ElementAction::RemoveInlineImage);
    push_rule(&mut rules, "picture", ElementAction::RemoveInlineImage);
    push_tracking_rules(&mut rules);
    assert(rule_views(rules@) =~= slim_table());
    rules
}

/// The severest table of rules.
pub fn full_rules() -> (rules: Vec<CleanRule>)
    ensures
        rule_views(rules@) == full_table(),
{
    let mut rules: Vec<CleanRule> = Vec::new();
    assert(rule_views(rules@) =~= Seq::empty());
    push_rule(&mut rules, "nav, footer", ElementAction::Remove);
    push_rule(&mut rules, "meta", ElementAction::KeepLayoutMeta);
    push_rule(&mut rules, "*", ElementAction::StripAttributes);
    assert(rule_views(rules@) =~= full_table());
    rules
}

/// `html` rewritten under `table`, or cleaned by cutting where the rewriter
/// fails.
pub open spec fn cleaned_under(html: Seq<char>, table: Seq<(Seq<char>, ElementAction)>) -> Seq<
    char,
> {
    match rewritten(html, table) {
        Some(t) => t,
        None => cleaned_raw(html),
    }
}

/// Rewrite `html` under `rules`; where the rewriter fails, cut the script and
/// style elements out of the text instead.
pub fn clean_under(html: &str, rules: &Vec<CleanRule>) -> (r: String)
    ensures
        r@ == cleaned_under(html@, rule_views(rules@)),
{
    let rewritten = rewrite(html, rules);
    finish_cleaning(html, rewritten)
}

/// What cleaning returns once the rewriter has answered: its output, or the
/// text with the script and style elements cut out where it failed.
pub fn finish_cleaning(html: &str, rewritten: Option<String>) -> (r: String)
    ensures
        r@ == match rewritten {
            Some(t) => t@,
            None => cleaned_raw(html@),
        },
{
    match rewritten {
        Some(t) => t,
        None => clean_html_raw(html),
    }
}

/// Clean the html removing css and js
pub fn clean_html_base(html: &str) -> (r: String)
    ensures
        r@ == cleaned_under(html@, base_table()),
{
    let rules = base_rules();
    clean_under(html, &rules)
}

/// Clean the HTML to slim fit GPT models. This removes base64 images from the prompt.
pub fn clean_html_slim(html: &str) -> (r: String)
    ensures
        r@ == cleaned_under(html@, slim_table()),
{
    let rules = slim_rules();
    clean_under(html, &rules)
}

/// Clean the most of the extra properties in the html to fit the context.
pub fn clean_html_full(html: &str) -> (r: String)
    ensures
        r@ == cleaned_under(html@, full_table()),
{
    let rules = full_rules();
    clean_under(html, &rules)
}

/// The cleaning that the engine was set up with.
#[derive(Debug, Clone, Copy, PartialEq, Eq, Structural)]
pub enum Cleaning {
    /// No rewriter: markup is cleaned by cutting, and slimming leaves it as it is.
    Plain,
    /// Markup is rewritten under the first table.
    Rewriting,
    /// Markup is rewritten under the second table at once.
    SlimFit,
}

/// What `clean_html_with` returns.
pub open spec fn cleaned(cleaning: Cleaning, html: Seq<char>) -> Seq<char> {
    match cleaning {
        Cleaning::Plain => cleaned_raw(html),
        Cleaning::Rewriting => cleaned_under(html, base_table()),
        Cleaning::SlimFit => cleaned_under(html, slim_table()),
    }
}

/// What `clean_html_slim_with` returns.
pub open spec fn slimmed(cleaning: Cleaning, html: Seq<char>) -> Seq<char> {
    match cleaning {
        Cleaning::Plain => html,
        _ => cleaned_under(html, slim_table()),
    }
}

/// Clean the html removing css and js, as the engine was set up to.
pub fn clean_html_with(cleaning: Cleaning, html: &str) -> (r: String)
    ensures
        r@ == cleaned(cleaning, html@),
{
    match cleaning {
        Cleaning::Plain => clean_html_raw(html),
        Cleaning::Rewriting => clean_html_base(html),
        Cleaning::SlimFit => clean_html_slim(html),
    }
}

/// Clean and remove all base64 images from the prompt, as the engine was set
/// up to: without a rewriter the markup stays as it is.
pub fn clean_html_slim_with(cleaning: Cleaning, html: &str) -> (r: String)
    ensures
        r@ == slimmed(cleaning, html@),
{
    match cleaning {
        Cleaning::Plain => html.to_owned(),
        _ => clean_html_slim(html),
    }
}

/// Clean the html removing css and js
pub fn clean_html(html: &str) -> (r: String)
    ensures
        r@ == cleaned_raw(html@),
{
    clean_html_raw(html)
}

} // verus!
