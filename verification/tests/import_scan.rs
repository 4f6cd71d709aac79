use pydrop::imports::{collect_import_names, detect_imports, ImportScanError, IMPORT_PATTERN};

fn names(v: &[&str]) -> Vec<String> {
    v.iter().map(|s| s.to_string()).collect()
}

#[test]
fn every_import_line_is_detected_once_in_order() {
    let script = "import os\nimport sys\nfrom pathlib import Path\nimport os\n";
    assert_eq!(detect_imports(script), Ok(names(&["os", "sys", "pathlib"])));
}

#[test]
fn imports_after_other_code_are_detected() {
    let script = "x = 1\nprint(x)\nimport numpy as np\n";
    assert_eq!(detect_imports(script), Ok(names(&["numpy"])));
}

#[test]
fn indented_imports_are_detected() {
    let script = "\n\n    import requests\nif True:\n    from urllib3 import util\n";
    assert_eq!(detect_imports(script), Ok(names(&["requests", "urllib3"])));
}

#[test]
fn only_first_name_of_a_comma_list_is_taken() {
    assert_eq!(detect_imports("import os, sys\n"), Ok(names(&["os"])));
}

#[test]
fn dotted_module_reports_its_top_package() {
    assert_eq!(detect_imports("from xml.etree import ElementTree\n"), Ok(names(&["xml"])));
}

#[test]
fn relative_imports_and_lookalikes_are_ignored() {
    let script = "from . import sibling\nimportant = 3\n# import hidden\nx = 'import y'\n";
    assert_eq!(detect_imports(script), Ok(Vec::new()));
}

#[test]
fn empty_script_imports_nothing() {
    assert_eq!(detect_imports(""), Ok(Vec::new()));
}

#[test]
fn collected_names_skip_gaps_and_repeats() {
    let caps = vec![
        Some("a".to_string()),
        None,
        Some("b".to_string()),
        Some("a".to_string()),
        Some("c".to_string()),
        Some("b".to_string()),
    ];
    assert_eq!(collect_import_names(&caps), names(&["a", "b", "c"]));
}

#[test]
fn pattern_is_multi_line() {
    assert!(IMPORT_PATTERN.starts_with("(?m)"));
    assert_ne!(detect_imports("import a"), Err(ImportScanError::PatternRejected));
}
