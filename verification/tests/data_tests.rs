use tpl_gen::data::{data_tree_of, load_config, parse_data};
use tpl_gen::errors::ErrorKind;

#[test]
fn valid_document_loads() {
    let tree = load_config(&"title = \"Report\"".to_string()).unwrap();
    assert_eq!(tree.entry_count(), 1);
    assert_eq!(tree.entry_at(0).0, "title");
}

#[test]
fn invalid_document_is_a_parse_error() {
    let e = load_config(&"= bad".to_string()).unwrap_err();
    assert_eq!(e.kind, ErrorKind::Parse);
    assert!(e.message.starts_with("failed to parse data file: "));
    assert!(e.message.len() > "failed to parse data file: ".len());
}

#[test]
fn non_mapping_root_is_a_format_error() {
    let e = data_tree_of(&toml::Value::Integer(3)).unwrap_err();
    assert_eq!(e.kind, ErrorKind::DataFormat);
    assert_eq!(e.message, "data file root is not a mapping");
}

#[test]
fn mapping_root_yields_its_entries() {
    let v = parse_data(&"a = 1\nb = \"two\"".to_string()).unwrap();
    let tree = data_tree_of(&v).unwrap();
    assert_eq!(tree.entry_count(), 2);
    let first = tree.entry_at(0);
    let second = tree.entry_at(1);
    let mut keys = vec![first.0.as_str(), second.0.as_str()];
    keys.sort();
    assert_eq!(keys, vec!["a", "b"]);
}
