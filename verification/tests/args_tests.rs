use tpl_gen::args::load_args;
use tpl_gen::errors::{app_error, usage_message, ErrorKind};

fn strings(items: &[&str]) -> Vec<String> {
    items.iter().map(|s| s.to_string()).collect()
}

#[test]
fn var_flag_sets_override() {
    let cmd = load_args(&strings(&["-v:name", "value", "t.txt"])).unwrap();
    assert_eq!(cmd.tpl_path, "t.txt");
    assert_eq!(cmd.vars.get("name").unwrap(), "value");
    assert!(cmd.data_path.is_none());
    assert!(cmd.out_path.is_none());
}

#[test]
fn var_flag_takes_empty_value() {
    let cmd = load_args(&strings(&["-v:name", "", "t.txt"])).unwrap();
    assert_eq!(cmd.vars.get("name").unwrap(), "");
}

#[test]
fn var_flag_with_empty_name() {
    let cmd = load_args(&strings(&["-v:", "x", "t.txt"])).unwrap();
    assert_eq!(cmd.vars.get("").unwrap(), "x");
}

#[test]
fn repeated_override_overwrites() {
    let cmd = load_args(&strings(&["-v:a", "1", "-v:a", "2", "t.txt"])).unwrap();
    assert_eq!(cmd.vars.get("a").unwrap(), "2");
}

#[test]
fn data_and_out_flags_are_recorded() {
    let cmd = load_args(&strings(&["-o", "out.txt", "-d", "data.toml", "t.txt"])).unwrap();
    assert_eq!(cmd.out_path.as_deref(), Some("out.txt"));
    assert_eq!(cmd.data_path.as_deref(), Some("data.toml"));
    assert_eq!(cmd.tpl_path, "t.txt");
}

#[test]
fn first_plain_token_ends_the_parse() {
    let cmd = load_args(&strings(&["t.txt", "-o", "out.txt", "-v:a", "1"])).unwrap();
    assert_eq!(cmd.tpl_path, "t.txt");
    assert!(cmd.out_path.is_none());
    assert!(cmd.vars.get("a").is_none());
}

#[test]
fn no_arguments_is_a_usage_error() {
    let e = load_args(&Vec::new()).unwrap_err();
    assert_eq!(e.kind, ErrorKind::Usage);
    assert_eq!(e.message, "no template path supplied");
}

#[test]
fn empty_token_is_a_usage_error() {
    let e = load_args(&strings(&[""])).unwrap_err();
    assert_eq!(e.kind, ErrorKind::Usage);
    assert_eq!(e.message, "no template path supplied");
}

#[test]
fn trailing_flag_without_value_is_a_usage_error() {
    let e = load_args(&strings(&["-o"])).unwrap_err();
    assert_eq!(e.kind, ErrorKind::Usage);
    assert_eq!(e.message, "missing value for flag -o");
    let e = load_args(&strings(&["-v:name"])).unwrap_err();
    assert_eq!(e.kind, ErrorKind::Usage);
    assert_eq!(e.message, "missing value for flag -v:name");
}

#[test]
fn usage_line_names_every_flag() {
    assert_eq!(
        usage_message(),
        "tpl-gen [-d DATA_FILE] [-o OUT_FILE] [-v:VAR_NAME VAR_VALUE]... TEMPLATE_FILE"
    );
}

#[test]
fn app_error_keeps_kind_and_message() {
    let e = app_error(ErrorKind::Io, "failed to read template file".to_string());
    assert_eq!(e.kind, ErrorKind::Io);
    assert_eq!(e.message_text(), "failed to read template file");
}

#[test]
fn flags_without_template_are_a_usage_error() {
    let e = load_args(&strings(&["-d", "data.toml"])).unwrap_err();
    assert_eq!(e.kind, ErrorKind::Usage);
    assert_eq!(e.message, "no template path supplied");
}
