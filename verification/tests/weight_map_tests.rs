use serde_json::Value;
use synap_forge_llm::weight_map::{weight_files, weight_names, WeightMapError};

fn json(text: &str) -> Value {
    serde_json::from_str(text).unwrap()
}

fn names(list: &[&str]) -> Vec<String> {
    list.iter().map(|s| s.to_string()).collect()
}

#[test]
fn files_of_an_index_are_its_distinct_values() {
    let index = json(
        r#"{"lm_head.weight":"model-00002-of-00002.safetensors",
            "model.embed_tokens.weight":"model-00001-of-00002.safetensors",
            "model.layers.0.mlp.up_proj.weight":"model-00001-of-00002.safetensors",
            "model.norm.weight":"model-00002-of-00002.safetensors"}"#,
    );
    let mut files = weight_files(&index).unwrap();
    files.sort();
    assert_eq!(
        files,
        names(&["model-00001-of-00002.safetensors", "model-00002-of-00002.safetensors"])
    );
}

#[test]
fn values_that_are_no_strings_are_passed_over() {
    let index = json(r#"{"a":"x.safetensors","b":7,"c":null,"d":["y"],"e":{"f":"z"},"g":true}"#);
    assert_eq!(weight_files(&index), Ok(names(&["x.safetensors"])));
}

#[test]
fn an_empty_object_names_no_file() {
    assert_eq!(weight_files(&json("{}")), Ok(Vec::new()));
}

#[test]
fn anything_but_an_object_is_an_error() {
    for text in ["[]", "\"x\"", "3", "null", "true", "[{\"a\":\"b\"}]"] {
        assert_eq!(weight_files(&json(text)), Err(WeightMapError::NotAnObject));
    }
}

#[test]
fn names_keep_the_order_of_their_first_occurrence() {
    let members = vec![
        Some("b".to_string()),
        None,
        Some("a".to_string()),
        Some("b".to_string()),
        Some("c".to_string()),
        Some("a".to_string()),
        None,
    ];
    assert_eq!(weight_names(&members), names(&["b", "a", "c"]));
}

#[test]
fn no_member_no_name() {
    assert_eq!(weight_names(&vec![]), Vec::<String>::new());
    assert_eq!(weight_names(&vec![None, None]), Vec::<String>::new());
}
