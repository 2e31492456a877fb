use spider::ai::{
    ai_result, budget, calculate_max_tokens, chat_messages, checked_permits, completion_tokens, content_after_script, find_key, fit_resource, handle_ai_data, handle_extra_ai_data, handle_openai_credits, machine_permits, measure, needs_recapture, openai_request, openai_request_base, pick_count, record_answer, request_key, run_openai_request, select_configs, select_with_path, semaphore_permits, should_request, tokens, wants_screenshot, wrap_script, AI_SCREENSHOT_QUALITY, ChatMessage, ChatOutcome, FitStage, GPTConfigs, JsonResponse, LEAST_PERMITS, Measure, OpenAIReturn, PromptFit, TOKEN_TEXT_LIMIT,
};
use spider::html::{clean_html_base, clean_html_full, clean_html_slim, Cleaning};
use spider::page::{OpenAIUsage, PageResponse};

fn configs(model: &str, prompts: &[&str]) -> GPTConfigs {
    GPTConfigs {
        prompt: prompts.iter().map(|p| p.to_string()).collect(),
        model: model.to_string(),
        max_tokens: 256,
        user: None,
        prompt_url_map: None,
        extra_ai_data: false,
        paths_map: false,
        screenshot: false,
        api_key: None,
    }
}

fn usage(p: u32, c: u32) -> OpenAIUsage {
    OpenAIUsage { prompt_tokens: p, completion_tokens: c, total_tokens: p + c, cached: false }
}

#[test]
fn permits_by_cores() {
    assert_eq!(semaphore_permits(8, 8), 21);
    assert_eq!(semaphore_permits(4, 4), 20);
    assert_eq!(semaphore_permits(16, 8), 10);
    assert_eq!(semaphore_permits(64, 2), 42);
    assert_eq!(semaphore_permits(2, 4), 10);
    assert_eq!(semaphore_permits(1, 1), 20);
    assert_eq!(semaphore_permits(12, 12), 48);
    assert!(machine_permits().map_or(true, |n| n >= LEAST_PERMITS));
    assert_eq!(LEAST_PERMITS, 10);
}

#[test]
fn permits_for_any_counts() {
    assert_eq!(checked_permits(8, 8), Some(21));
    assert_eq!(checked_permits(16, 8), Some(10));
    assert_eq!(checked_permits(64, 2), Some(42));
    assert_eq!(checked_permits(0, 3), Some(10));
    assert_eq!(checked_permits(4, 0), None);
    assert_eq!(checked_permits(0, 0), None);
    assert_eq!(checked_permits(usize::MAX, 1), None);
    assert_eq!(checked_permits(usize::MAX / 4 + 1, 2), None);
    assert_eq!(checked_permits(usize::MAX / 4, usize::MAX / 4), None);
    assert_eq!(checked_permits(usize::MAX / 4, 1), Some((usize::MAX / 4) * 4 / 3));
}

#[test]
fn tokens_of_the_model_or_of_the_base() {
    assert_eq!(tokens("gpt-4", "hello world"), 2);
    assert_eq!(tokens("gpt-4", ""), 0);
    assert_eq!(tokens("no-such-model", "hello world"), 2);
    assert!(tokens("gpt-4", "<p>hello</p>") > tokens("gpt-4", "hello"));
    assert_eq!(pick_count(Some(3), Some(4)), 3);
    assert_eq!(pick_count(None, Some(4)), 4);
    assert_eq!(pick_count(None, None), 0);
}

#[test]
fn text_too_long_for_a_tokenizer_counts_by_its_bytes() {
    let spaces = " ".repeat(1_200_000);
    assert_eq!(tokens("gpt-4", &spaces), 1_200_000);
    assert_eq!(tokens("no-such-model", &spaces), 1_200_000);
    let just_over = "a".repeat(TOKEN_TEXT_LIMIT + 1);
    assert_eq!(tokens("gpt-4", &just_over), TOKEN_TEXT_LIMIT + 1);
    let wide = "\u{e9}".repeat(TOKEN_TEXT_LIMIT / 2 + 1);
    assert_eq!(tokens("gpt-4", &wide), TOKEN_TEXT_LIMIT + 2);
    let m = measure("gpt-4", &spaces, "hello", 65_535);
    assert_eq!(m.resource_tokens, 1_200_000);
    assert!(m.is_over());
    assert_eq!(calculate_max_tokens("gpt-4", 100, "", &spaces, ""), 0);
}

#[test]
fn text_too_long_is_stripped_to_the_end() {
    let page = format!("<html><body><nav>n</nav><p lang=\"en\">{}</p></body></html>", " ".repeat(500_000));
    let sent = fit_resource(Cleaning::Rewriting, "gpt-4", 4096, "act", page, "summarise");
    assert!(sent.starts_with("<html><body><p>"));
    assert!(!sent.contains("<nav>"));
    assert_eq!(sent.len(), 500_000 + "<html><body><p></p></body></html>".len());
}

#[test]
fn measures() {
    let m = measure("gpt-4", "hello world", "hello", 3);
    assert_eq!(m, Measure { resource_tokens: 2, prompt_tokens: 1, budget: 3 });
    assert!(!m.is_over());
    assert!(Measure { resource_tokens: 2, prompt_tokens: 2, budget: 3 }.is_over());
    assert!(Measure { resource_tokens: 4, prompt_tokens: 0, budget: 3 }.is_over());
    assert!(!Measure { resource_tokens: 0, prompt_tokens: 0, budget: 0 }.is_over());
    assert!(Measure { resource_tokens: usize::MAX, prompt_tokens: usize::MAX, budget: usize::MAX }.is_over());
}

const PAGE: &str = "<html><head><meta name=\"description\" content=\"d\"></head><body><nav>menu</nav><script>s()</script><svg><g></g></svg><p style=\"x\">hi</p></body></html>";

#[test]
fn page_within_budget_is_cleaned_once() {
    let mut fit = PromptFit::new(PAGE.to_string(), Cleaning::Rewriting);
    assert_eq!(fit.stage(), FitStage::Raw);
    assert_eq!(fit.text(), PAGE);
    fit.advance(false);
    assert!(fit.is_done());
    assert_eq!(fit.text(), clean_html_base(PAGE));
    fit.advance(true);
    assert_eq!(fit.into_text(), clean_html_base(PAGE));
}

#[test]
fn page_over_budget_is_stripped_stage_by_stage() {
    let mut fit = PromptFit::new(PAGE.to_string(), Cleaning::Rewriting);
    fit.advance(true);
    assert_eq!(fit.stage(), FitStage::Cleaned);
    let cleaned = clean_html_base(PAGE);
    assert_eq!(fit.text(), cleaned);
    fit.advance(true);
    assert_eq!(fit.stage(), FitStage::Slimmed);
    let slimmed = clean_html_slim(&cleaned);
    assert_eq!(fit.text(), slimmed);
    assert!(!slimmed.contains("<svg>"));
    fit.advance(true);
    assert!(fit.is_done());
    let full = clean_html_full(&slimmed);
    assert_eq!(fit.text(), full);
    assert_eq!(full, "<html><head></head><body><p>hi</p></body></html>");
}

#[test]
fn stripping_stops_where_the_page_fits() {
    let mut fit = PromptFit::new(PAGE.to_string(), Cleaning::Rewriting);
    fit.advance(true);
    fit.advance(false);
    assert!(fit.is_done());
    assert_eq!(fit.text(), clean_html_base(PAGE));
    let mut fit = PromptFit::new(PAGE.to_string(), Cleaning::Rewriting);
    fit.advance(true);
    fit.advance(true);
    fit.advance(false);
    assert!(fit.is_done());
    assert_eq!(fit.text(), clean_html_slim(&clean_html_base(PAGE)));
}

#[test]
fn fit_to_a_roomy_budget() {
    let roomy = fit_resource(Cleaning::Rewriting, "gpt-4", 10_000, "act", PAGE.to_string(), "summarise");
    assert_eq!(roomy, clean_html_base(PAGE));
}

#[test]
fn fit_to_no_budget() {
    let none = fit_resource(Cleaning::Rewriting, "gpt-4", 0, "act", PAGE.to_string(), "summarise");
    assert_eq!(none, "<html><head></head><body><p>hi</p></body></html>");
}

#[test]
fn fit_to_a_budget() {
    let slim = clean_html_slim(&clean_html_base(PAGE));
    let slim_needed = tokens("gpt-4", &slim) + tokens("gpt-4", "summarise");
    let fitted = fit_resource(Cleaning::Rewriting, "gpt-4", slim_needed as u16, "act", PAGE.to_string(), "summarise");
    assert_eq!(fitted, slim);
}

#[test]
fn budget_of_tokens() {
    assert_eq!(calculate_max_tokens("gpt-4", 100, "", "", ""), 100);
    assert_eq!(calculate_max_tokens("gpt-4", 0, "", "", ""), 0);
    let used = tokens("gpt-4", "act") + tokens("gpt-4", "hello world") + tokens("gpt-4", "hello");
    assert_eq!(calculate_max_tokens("gpt-4", 65535, "act", "hello world", "hello"), 8192 - used);
    let long = "hello ".repeat(9000);
    assert_eq!(calculate_max_tokens("gpt-4", 100, "", &long, ""), 0);
}

#[test]
fn configuration_for_a_page() {
    let mut c = configs("gpt-4", &["a"]);
    assert_eq!(select_configs(&c, "http://a.test/").unwrap().model, "gpt-4");
    c.prompt_url_map = Some(vec![
        ("http://a.test/Blog".to_string(), configs("m-blog", &["b"])),
        ("/docs".to_string(), configs("m-docs", &["d"])),
        ("HTTP://A.TEST/blog".to_string(), configs("m-second", &[])),
    ]);
    assert_eq!(select_configs(&c, "http://a.test/blog").unwrap().model, "m-blog");
    assert!(select_configs(&c, "http://a.test/docs").is_none());
    assert!(select_configs(&c, "http://a.test/").is_none());
    c.paths_map = true;
    assert_eq!(select_configs(&c, "http://a.test/docs").unwrap().model, "m-docs");
    assert_eq!(select_configs(&c, "http://a.test/DOCS?x=1").unwrap().model, "m-docs");
    assert_eq!(select_configs(&c, "http://a.test/blog").unwrap().model, "m-blog");
    assert!(select_configs(&c, "http://a.test/other").is_none());
    assert!(select_configs(&c, "not a url").is_none());
}

#[test]
fn plans_for_the_prompts() {
    let c = Some(configs("gpt-4", &["a", "b", "c"]));
    let plans = run_openai_request("http://a.test/", &c, true);
    assert_eq!(plans.len(), 3);
    assert!(plans.iter().all(|p| p.ask && !p.json_mode));
    let plans = run_openai_request("http://a.test/", &c, false);
    assert_eq!(plans.len(), 3);
    assert!(plans.iter().all(|p| !p.ask));
    let mut no_model = configs("", &["a"]);
    no_model.extra_ai_data = true;
    let plans = run_openai_request("http://a.test/", &Some(no_model), true);
    assert_eq!(plans.len(), 1);
    assert!(!plans[0].ask && plans[0].json_mode);
    assert!(run_openai_request("http://a.test/", &None, true).is_empty());
    let mut mapped = configs("gpt-4", &["a"]);
    mapped.prompt_url_map = Some(Vec::new());
    assert!(run_openai_request("http://a.test/", &Some(mapped), true).is_empty());
    assert!(should_request("m", true));
    assert!(!should_request("", true));
    assert!(!should_request("m", false));
}

#[test]
fn conversation_for_a_page() {
    let messages = chat_messages(true, "http://a.test/", "<p>hi</p>", "find links");
    assert_eq!(messages.len(), 4);
    assert!(matches!(messages[0], ChatMessage::SystemActions));
    assert!(matches!(messages[1], ChatMessage::SystemExtra));
    assert!(matches!(&messages[2], ChatMessage::Page(t) if t == "URL: http://a.test/\nHTML: <p>hi</p>"));
    assert!(matches!(&messages[3], ChatMessage::User(t) if t == "find links"));
    let messages = chat_messages(false, "u", "r", "");
    assert_eq!(messages.len(), 2);
    assert!(matches!(messages[0], ChatMessage::SystemActions));
    assert!(matches!(&messages[1], ChatMessage::Page(t) if t == "URL: u\nHTML: r"));
}

#[test]
fn completion_limit_and_key() {
    assert_eq!(completion_tokens(0), 1);
    assert_eq!(completion_tokens(1), 1);
    assert_eq!(completion_tokens(4096), 4096);
    assert_eq!(completion_tokens(65535), 65535);
    assert_eq!(completion_tokens(65536), 0);
    assert_eq!(completion_tokens(65537), 1);
    assert_eq!(request_key(&Some("sk-1".to_string())), Some("sk-1"));
    assert_eq!(request_key(&Some(String::new())), None);
    assert_eq!(request_key(&None), None);
}

#[test]
fn what_is_recorded_for_a_request() {
    let r = record_answer(ChatOutcome::Refused("no permit".to_string()));
    assert_eq!(r.error, Some("no permit".to_string()));
    assert_eq!(r.response, "");
    assert_eq!(r.usage, OpenAIUsage::default());
    let r = record_answer(ChatOutcome::NoAnswer);
    assert!(r.error.is_none() && r.response.is_empty());
    let r = record_answer(ChatOutcome::Answer { usage: Some(usage(7, 5)), content: Some("x()".to_string()) });
    assert_eq!(r.response, "x()");
    assert_eq!(r.usage, usage(7, 5));
    assert!(r.error.is_none());
    let r = record_answer(ChatOutcome::Answer { usage: None, content: None });
    assert_eq!(r.response, "");
    assert_eq!(r.usage, OpenAIUsage { prompt_tokens: 0, completion_tokens: 0, total_tokens: 0, cached: false });
}

#[test]
fn cached_answers_are_marked() {
    let fresh = OpenAIReturn { response: "fresh".to_string(), usage: usage(1, 1), error: None };
    let r = openai_request(None, fresh);
    assert_eq!(r.response, "fresh");
    assert!(!r.usage.cached);
    let stored = OpenAIReturn { response: "old".to_string(), usage: usage(3, 4), error: Some("e".to_string()) };
    let r = openai_request(Some(stored), OpenAIReturn::default());
    assert_eq!(r.response, "old");
    assert_eq!(r.error, Some("e".to_string()));
    assert_eq!(r.usage, OpenAIUsage { prompt_tokens: 3, completion_tokens: 4, total_tokens: 7, cached: true });
}

#[test]
fn answer_as_structured_response() {
    let parsed = JsonResponse { content: vec!["a".to_string()], js: "x()".to_string(), error: None };
    let r = handle_ai_data(true, "raw".to_string(), Some(parsed));
    assert_eq!((r.content, r.js.as_str(), r.error), (vec!["a".to_string()], "x()", None));
    let r = handle_ai_data(true, "raw".to_string(), None);
    assert!(r.content.is_empty() && r.js.is_empty());
    assert_eq!(r.error, Some("An issue occured with serialization.".to_string()));
    let parsed = JsonResponse { content: Vec::new(), js: "ignored".to_string(), error: None };
    let r = handle_ai_data(false, "raw".to_string(), Some(parsed));
    assert_eq!(r.js, "raw");
    assert!(r.content.is_empty() && r.error.is_none());
    let d = JsonResponse::default();
    assert!(d.content.is_empty() && d.js.is_empty() && d.error.is_none());
}

#[test]
fn scripts_for_the_page() {
    assert_eq!(wrap_script(""), None);
    assert_eq!(
        wrap_script("go()"),
        Some("async function() { go(); return document.documentElement.outerHTML; }".to_string())
    );
    assert!(needs_recapture("window.location.href = '/next'"));
    assert!(!needs_recapture("document.title"));
    let long = format!("{}window.location", " ".repeat(386));
    assert_eq!(long.len(), 401);
    assert!(!needs_recapture(&long));
    assert!(needs_recapture(&long[1..]));
}

#[test]
fn content_after_a_script() {
    let current = Some(b"old".to_vec());
    let html = Some(b"new".to_vec());
    let again = Some(b"moved".to_vec());
    assert_eq!(content_after_script(current.clone(), "x()", None, again.clone()), current);
    assert_eq!(content_after_script(current.clone(), "x()", html.clone(), again.clone()), html);
    assert_eq!(
        content_after_script(current.clone(), "window.location='/'", html.clone(), again.clone()),
        again
    );
    assert_eq!(content_after_script(current.clone(), "window.location='/'", html, None), current);
}

#[test]
fn screenshot_for_the_result() {
    let mut c = configs("m", &[]);
    assert!(!wants_screenshot(&c, "x()"));
    c.screenshot = true;
    assert!(!wants_screenshot(&c, "x()"));
    c.extra_ai_data = true;
    assert!(wants_screenshot(&c, "x()"));
    assert!(!wants_screenshot(&c, ""));
    assert_eq!(AI_SCREENSHOT_QUALITY, 45);
}

#[test]
fn credits_are_recorded_in_order() {
    let mut page = PageResponse::default();
    handle_openai_credits(&mut page, usage(1, 2));
    assert_eq!(page.openai_credits_used, Some(vec![usage(1, 2)]));
    handle_openai_credits(&mut page, usage(3, 4));
    assert_eq!(page.openai_credits_used, Some(vec![usage(1, 2), usage(3, 4)]));
    assert!(page.content.is_none() && page.extra_ai_data.is_none());
}

#[test]
fn results_are_recorded_in_order() {
    let mut page = PageResponse::default();
    let x = JsonResponse {
        content: vec!["  a ".to_string(), "\n\tb".to_string(), String::new()],
        js: "x()".to_string(),
        error: None,
    };
    handle_extra_ai_data(&mut page, "first prompt", x, Some(vec![9]), Some("e".to_string()));
    handle_extra_ai_data(&mut page, "second prompt", JsonResponse::default(), None, None);
    let results = page.extra_ai_data.as_ref().unwrap();
    assert_eq!(results.len(), 2);
    assert_eq!(results[0].input, "first prompt");
    assert_eq!(results[0].js_output, "x()");
    assert_eq!(results[0].content_output, vec!["a ".to_string(), "b".to_string(), String::new()]);
    assert_eq!(results[0].screenshot_output, Some(vec![9]));
    assert_eq!(results[0].error, Some("e".to_string()));
    assert_eq!(results[1].input, "second prompt");
    assert!(results[1].content_output.is_empty() && results[1].error.is_none());
    assert!(page.openai_credits_used.is_none());
    let r = ai_result("p", JsonResponse::default(), None, None);
    assert_eq!(r.input, "p");
    assert!(r.js_output.is_empty());
}

#[test]
fn what_is_sent_for_a_page() {
    let mut c = configs("gpt-4", &["summarise"]);
    c.max_tokens = 300;
    c.user = Some("crawler".to_string());
    c.api_key = Some(String::new());
    let request = openai_request_base(Cleaning::Rewriting, &c, "act", PAGE.to_string(), "http://a.test/", "summarise");
    assert_eq!(request.model, "gpt-4");
    assert_eq!(request.user, Some("crawler".to_string()));
    assert_eq!(request.api_key, None);
    assert!(!request.json_mode);
    assert_eq!(request.max_tokens, 300);
    assert_eq!(request.messages.len(), 3);
    assert!(matches!(request.messages[0], ChatMessage::SystemActions));
    let page = format!("URL: http://a.test/\nHTML: {}", clean_html_base(PAGE));
    assert!(matches!(&request.messages[1], ChatMessage::Page(t) if *t == page));
    assert!(matches!(&request.messages[2], ChatMessage::User(t) if t == "summarise"));
}

#[test]
fn what_is_sent_for_a_page_over_every_budget() {
    let mut c = configs("gpt-4", &[]);
    c.max_tokens = 0;
    c.extra_ai_data = true;
    c.api_key = Some("sk-1".to_string());
    let request = openai_request_base(Cleaning::Rewriting, &c, "act", PAGE.to_string(), "u", "");
    assert_eq!(request.max_tokens, 1);
    assert!(request.json_mode);
    assert_eq!(request.api_key, Some("sk-1".to_string()));
    assert_eq!(request.user, None);
    assert_eq!(request.messages.len(), 3);
    assert!(matches!(request.messages[1], ChatMessage::SystemExtra));
    assert!(matches!(&request.messages[2], ChatMessage::Page(t)
        if t == "URL: u\nHTML: <html><head></head><body><p>hi</p></body></html>"));
    assert!(!matches!(&request.messages[2], ChatMessage::Page(t) if t.contains("<script>")));
}

#[test]
fn budget_from_counts() {
    assert_eq!(budget(8192, 1, 2, 1, 65535), 8188);
    assert_eq!(budget(8192, 1, 2, 1, 100), 100);
    assert_eq!(budget(8192, 8192, 0, 0, 100), 0);
    assert_eq!(budget(8192, 4000, 4000, 4000, 100), 0);
    assert_eq!(budget(8192, usize::MAX, usize::MAX, usize::MAX, 100), 0);
    assert_eq!(budget(8192, 0, 8191, 0, 100), 1);
    assert_eq!(budget(0, 0, 0, 0, 0), 0);
}

#[test]
fn context_sizes() {
    assert_eq!(calculate_max_tokens("gpt-4o-mini", 65535, "", "", ""), 65535);
    assert_eq!(calculate_max_tokens("gpt-4-32k", 65535, "", "", ""), 32768);
    assert_eq!(calculate_max_tokens("gpt-4", 65535, "", "", ""), 8192);
    assert_eq!(calculate_max_tokens("gpt-3.5-turbo-16k", 65535, "", "", ""), 16385);
    assert_eq!(calculate_max_tokens("text-davinci-003", 65535, "", "", ""), 4097);
    assert_eq!(calculate_max_tokens("curie", 65535, "", "", ""), 2049);
    assert_eq!(calculate_max_tokens("code-cushman-001", 65535, "", "", ""), 2048);
    assert_eq!(calculate_max_tokens("code-davinci-002", 65535, "", "", ""), 8001);
    assert_eq!(calculate_max_tokens("text-embedding-ada-002", 65535, "", "", ""), 8192);
    assert_eq!(calculate_max_tokens("no-such-model", 65535, "", "", ""), 4096);
}

#[test]
fn entry_for_a_key_or_a_path() {
    let mut c = configs("gpt-4", &["a"]);
    c.prompt_url_map = Some(vec![
        ("/docs".to_string(), configs("m-docs", &[])),
        ("/DOCS".to_string(), configs("m-second", &[])),
    ]);
    let map = c.prompt_url_map.as_ref().unwrap();
    assert_eq!(find_key(map, "/Docs"), Some(0));
    assert_eq!(find_key(map, "/doc"), None);
    assert!(select_with_path(&c, "http://a.test/docs", Some("/docs")).is_none());
    c.paths_map = true;
    assert_eq!(select_with_path(&c, "http://a.test/docs", Some("/docs")).unwrap().model, "m-docs");
    assert!(select_with_path(&c, "http://a.test/docs", None).is_none());
    assert_eq!(select_with_path(&c, "/docs", None).unwrap().model, "m-docs");
    c.prompt_url_map = None;
    assert_eq!(select_with_path(&c, "x", None).unwrap().model, "gpt-4");
}
