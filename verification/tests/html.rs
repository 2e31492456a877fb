use spider::html::{
    attribute_is_kept, base_rules, clean_html, clean_html_base, clean_html_full, clean_html_raw, clean_html_slim, clean_html_slim_with, clean_html_with, clean_under, cut_pieces, finish_cleaning, full_rules, image_is_inline, meta_is_descriptive, meta_is_layout, pieces_or_none, slim_rules, strip_all, CleanRule, Cleaning, ElementAction,
};

#[test]
fn clean_html_drops_the_script_and_keeps_the_text() {
    let out = clean_html("<html><script>evil()</script><p>hi</p></html>");
    assert!(out.contains("<p>hi</p>"));
    assert!(!out.contains("evil()"));
}

#[test]
fn raw_cleaning_cuts_scripts_and_styles() {
    let out = clean_html_raw(
        "<html><head><style>p{color:red}</style></head><body><script>a()</script><p>x</p><script>a()</script></body></html>",
    );
    assert_eq!(out, "<html><head></head><body><p>x</p></body></html>");
}

#[test]
fn raw_cleaning_leaves_clean_markup_alone() {
    let html = "<html><head></head><body><p>x</p></body></html>";
    assert_eq!(clean_html_raw(html), html);
    assert_eq!(clean_html_raw(""), "");
}

#[test]
fn base_table_removes_scripts_frames_comments_and_other_meta() {
    let out = clean_html_base(
        "<html><head><meta name=\"description\" content=\"d\"><meta name=\"robots\" content=\"x\"><meta charset=\"utf-8\"><link rel=\"x\"><style>a{}</style></head><body><!-- note --><script>evil()</script><iframe src=\"f\"></iframe><div id=\"tracking-1\">t</div><p>hi</p></body></html>",
    );
    assert_eq!(
        out,
        "<html><head><meta name=\"description\" content=\"d\"></head><body><p>hi</p></body></html>"
    );
}

#[test]
fn base_table_keeps_inline_images() {
    let html = "<p><img src=\"data:image/png;base64,AAAA\"></p>";
    assert_eq!(clean_html_base(html), html);
}

#[test]
fn slim_table_removes_media_and_inline_images() {
    let out = clean_html_slim(
        "<body><svg><g></g></svg><noscript>n</noscript><canvas></canvas><video></video><img src=\"data:image/png;base64,AAAA\"><img src=\"/a.png\"><p>hi</p></body>",
    );
    assert_eq!(out, "<body><img src=\"/a.png\"><p>hi</p></body>");
}

#[test]
fn full_table_strips_attributes_and_navigation() {
    let out = clean_html_full(
        "<html><head><meta name=\"Viewport\" content=\"w\"><meta name=\"description\" content=\"d\"></head><body><nav>menu</nav><p id=\"a\" class=\"b\" style=\"c\" data-x=\"1\" onclick=\"z()\">hi</p><footer>f</footer><!-- c --></body></html>",
    );
    assert_eq!(
        out,
        "<html><head><meta></head><body><p id=\"a\" class=\"b\">hi</p></body></html>"
    );
}

#[test]
fn full_table_removes_repeated_attributes() {
    let out = clean_html_full("<p title=\"a\" id=\"k\" title=\"b\" lang=\"en\">x</p>");
    assert_eq!(out, "<p id=\"k\">x</p>");
}

#[test]
fn cleaning_follows_the_setup() {
    let html = "<html><body><script>s()</script><svg></svg><p>hi</p></body></html>";
    assert_eq!(clean_html_with(Cleaning::Plain, html), clean_html_raw(html));
    assert_eq!(clean_html_with(Cleaning::Rewriting, html), clean_html_base(html));
    assert_eq!(clean_html_with(Cleaning::SlimFit, html), clean_html_slim(html));
    assert!(clean_html_with(Cleaning::Rewriting, html).contains("<svg>"));
    assert!(!clean_html_with(Cleaning::SlimFit, html).contains("<svg>"));
    assert_eq!(clean_html_slim_with(Cleaning::Plain, html), html);
    assert_eq!(clean_html_slim_with(Cleaning::Rewriting, html), clean_html_slim(html));
}

#[test]
fn a_selector_that_is_refused_falls_back_to_cutting() {
    let rules = vec![CleanRule { selector: "p[".to_string(), action: ElementAction::Remove }];
    let html = "<html><head></head><body><script>s()</script><p>hi</p></body></html>";
    assert_eq!(clean_under(html, &rules), "<html><head></head><body><p>hi</p></body></html>");
    assert_eq!(finish_cleaning(html, Some("done".to_string())), "done");
    assert_eq!(finish_cleaning(html, None), clean_html_raw(html));
}

#[test]
fn own_rules_are_applied() {
    let rules = vec![
        CleanRule { selector: "b".to_string(), action: ElementAction::Remove },
        CleanRule { selector: "i".to_string(), action: ElementAction::StripAttributes },
    ];
    assert_eq!(
        clean_under("<p><b>x</b><i lang=\"en\" id=\"k\">y</i><!-- c --></p>", &rules),
        "<p><i id=\"k\">y</i></p>"
    );
}

#[test]
fn rule_tables_hold_the_rules() {
    let base = base_rules();
    assert_eq!(base.len(), 10);
    assert_eq!(base[0].selector, "script");
    assert_eq!(base[4].selector, "[style*='display:none']");
    assert_eq!(base[9].selector, "meta");
    assert_eq!(base[9].action, ElementAction::KeepDescriptiveMeta);
    let slim = slim_rules();
    assert_eq!(slim.len(), 16);
    assert_eq!(slim[8].selector, "img");
    assert_eq!(slim[8].action, ElementAction::RemoveInlineImage);
    assert_eq!(slim[9].selector, "picture");
    let full = full_rules();
    assert_eq!(full.len(), 3);
    assert_eq!(full[0].selector, "nav, footer");
    assert_eq!(full[1].action, ElementAction::KeepLayoutMeta);
    assert_eq!(full[2].selector, "*");
    assert_eq!(full[2].action, ElementAction::StripAttributes);
}

#[test]
fn element_decisions() {
    assert!(meta_is_descriptive(&Some("title".to_string())));
    assert!(meta_is_descriptive(&Some("description".to_string())));
    assert!(!meta_is_descriptive(&Some("Title".to_string())));
    assert!(!meta_is_descriptive(&None));
    assert!(meta_is_layout(&Some("VIEWPORT".to_string())));
    assert!(meta_is_layout(&Some("charset".to_string())));
    assert!(!meta_is_layout(&Some("title".to_string())));
    assert!(!meta_is_layout(&None));
    assert!(image_is_inline(&Some("data:image/gif;base64,R0".to_string())));
    assert!(!image_is_inline(&Some("/data:image".to_string())));
    assert!(!image_is_inline(&None));
    assert!(attribute_is_kept("id"));
    assert!(attribute_is_kept("class"));
    assert!(attribute_is_kept("data-"));
    assert!(!attribute_is_kept("data-x"));
    assert!(!attribute_is_kept("style"));
}

#[test]
fn pieces_are_cut_in_order() {
    let scripts = vec!["<script>a()</script>".to_string(), "<b>".to_string()];
    let styles = vec!["<style>p{}</style>".to_string()];
    assert_eq!(
        cut_pieces("<b><script>a()</script><style>p{}</style><p>x</p><script>a()</script>", &scripts, &styles),
        "<p>x</p>"
    );
    assert_eq!(cut_pieces("<p>x</p>", &Vec::new(), &Vec::new()), "<p>x</p>");
    assert_eq!(cut_pieces("aXbXc", &vec!["X".to_string()], &vec!["ab".to_string()]), "c");
    assert_eq!(cut_pieces("aaa", &vec!["aa".to_string()], &vec![String::new()]), "a");
    assert_eq!(strip_all("abcabc".to_string(), &vec!["b".to_string(), "ca".to_string()]), "ac");
    assert_eq!(pieces_or_none(None), Vec::<String>::new());
    assert_eq!(pieces_or_none(Some(vec!["x".to_string()])), vec!["x".to_string()]);
}
