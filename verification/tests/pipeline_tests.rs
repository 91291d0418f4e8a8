use tpl_gen::args::VarMap;
use tpl_gen::context::{build_context, CtxValue};
use tpl_gen::data::load_config;
use tpl_gen::errors::ErrorKind;
use tpl_gen::pipeline::execute;
use tpl_gen::render::render_template;

fn vars_of(pairs: &[(&str, &str)]) -> VarMap {
    let mut m = VarMap::new();
    for (k, v) in pairs {
        m.insert(k.to_string(), v.to_string());
    }
    m
}

#[test]
fn hello_template_with_inline_override() {
    let out = execute(
        &"template.txt".to_string(),
        &"Hello {{ name }}!".to_string(),
        None,
        &vars_of(&[("name", "World")]),
    )
    .unwrap();
    assert_eq!(out, "Hello World!");
}

#[test]
fn data_file_value_reaches_the_output() {
    let data = "title = \"Report\"".to_string();
    let out = execute(
        &"template.txt".to_string(),
        &"{{ title }}".to_string(),
        Some(&data),
        &VarMap::new(),
    )
    .unwrap();
    assert_eq!(out, "Report");
}

#[test]
fn override_beats_data_file_value() {
    let data = "title = \"Report\"".to_string();
    let out = execute(
        &"template.txt".to_string(),
        &"{{ title }}".to_string(),
        Some(&data),
        &vars_of(&[("title", "Override")]),
    )
    .unwrap();
    assert_eq!(out, "Override");
}

#[test]
fn disjoint_keys_all_reach_the_output() {
    let data = "a = 1\nb = \"two\"".to_string();
    let out = execute(
        &"template.txt".to_string(),
        &"{{ a }}-{{ b }}-{{ c }}".to_string(),
        Some(&data),
        &vars_of(&[("c", "three")]),
    )
    .unwrap();
    assert_eq!(out, "1-two-three");
}

#[test]
fn rendering_twice_is_byte_identical() {
    let data = "n = 7".to_string();
    let name = "template.txt".to_string();
    let source = "{% for i in range(end=n) %}{{ i }}{% endfor %}".to_string();
    let vars = vars_of(&[("tail", "x")]);
    let first = execute(&name, &source, Some(&data), &vars).unwrap();
    let second = execute(&name, &source, Some(&data), &vars).unwrap();
    assert_eq!(first.as_bytes(), second.as_bytes());
    assert_eq!(first, "0123456");
}

#[test]
fn merged_context_keeps_shapes_and_overwrites() {
    let tree = load_config(&"title = \"Report\"\nn = 3".to_string()).unwrap();
    let ctx = build_context(Some(&tree), &vars_of(&[("title", "Override")]));
    assert_eq!(ctx.entry_count(), 2);
    let mut saw_title_as_text = false;
    let mut saw_n_as_data = false;
    for i in 0..ctx.entry_count() {
        let e = ctx.entry_at(i);
        match (e.0.as_str(), &e.1) {
            ("title", CtxValue::Text(s)) => {
                assert_eq!(s, "Override");
                saw_title_as_text = true;
            },
            ("n", CtxValue::Data(v)) => {
                assert_eq!(v.as_integer(), Some(3));
                saw_n_as_data = true;
            },
            _ => panic!("unexpected context entry"),
        }
    }
    assert!(saw_title_as_text);
    assert!(saw_n_as_data);
}

#[test]
fn malformed_template_is_a_syntax_error() {
    let e = execute(
        &"template.txt".to_string(),
        &"{% bad".to_string(),
        None,
        &VarMap::new(),
    )
    .unwrap_err();
    assert_eq!(e.kind, ErrorKind::TemplateSyntax);
    assert!(e.message.starts_with("failed to parse template file:"));
    assert!(e.message.len() > "failed to parse template file:".len());
}

#[test]
fn undefined_variable_is_a_render_error() {
    let e = execute(
        &"template.txt".to_string(),
        &"{{ missing }}".to_string(),
        None,
        &VarMap::new(),
    )
    .unwrap_err();
    assert_eq!(e.kind, ErrorKind::TemplateRender);
    assert!(e.message.starts_with("failed to render template file:"));
    assert!(e.message.len() > "failed to render template file:".len());
}

#[test]
fn invalid_data_text_is_a_parse_error() {
    let e = execute(
        &"template.txt".to_string(),
        &"{{ title }}".to_string(),
        Some(&"= bad".to_string()),
        &VarMap::new(),
    )
    .unwrap_err();
    assert_eq!(e.kind, ErrorKind::Parse);
    assert!(e.message.starts_with("failed to parse data file: "));
}

#[test]
fn render_template_reads_the_context() {
    let ctx = build_context(None, &vars_of(&[("who", "there")]));
    let out = render_template(
        &"template.txt".to_string(),
        &"hi {{ who }}".to_string(),
        &ctx,
    )
    .unwrap();
    assert_eq!(out, "hi there");
}
