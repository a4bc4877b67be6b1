use shinkai_tools_runner::code_files::CodeFiles;
use shinkai_tools_runner::manifest::{
    compose_manifest, split_inline_block, with_manifest, ManifestError, BASELINE_MANIFEST,
};
use shinkai_tools_runner::python_runner::PythonRunner;

fn bundle(entry: &str) -> CodeFiles {
    CodeFiles::new("main.py".to_string())
        .with_file("main.py".to_string(), entry.to_string())
        .with_file("helper.py".to_string(), "# /// script\n# ///\n".to_string())
}

fn dependencies(manifest: &str) -> Vec<String> {
    let document = manifest.parse::<toml_edit::DocumentMut>().unwrap();
    document["project"]["dependencies"]
        .as_array()
        .unwrap()
        .iter()
        .map(|value| value.as_str().unwrap().to_string())
        .collect()
}

fn manifest_by_hand(inline: &str) -> String {
    let mut baseline = BASELINE_MANIFEST.parse::<toml_edit::DocumentMut>().unwrap();
    let metadata = inline.parse::<toml_edit::DocumentMut>().unwrap();
    if let Some(declared) = metadata.get("dependencies").and_then(|item| item.as_array()) {
        baseline["project"]["dependencies"].as_array_mut().unwrap().extend(declared.clone());
    }
    baseline.to_string()
}

const WITH_BLOCK: &str = "import os\n# /// script\n# dependencies = [\n#   \"requests<3\",\n#   \"rich\",\n# ]\n# ///\n\ndef run(c, p):\n    return 1\n";

#[test]
fn block_is_taken_out_of_the_entry_file() {
    let block = split_inline_block(WITH_BLOCK);
    assert_eq!(block.entry, "import os\n\ndef run(c, p):\n    return 1");
    assert_eq!(block.metadata, "dependencies = [\n\"requests<3\",\n\"rich\",\n]");
}

#[test]
fn markers_may_have_white_space_around_them() {
    let block = split_inline_block("a\n  # /// script \t\n #x = 1 # two\n\t# ///\r\nb\n");
    assert_eq!(block.entry, "a\nb");
    assert_eq!(block.metadata, "x = 1  two");
}

#[test]
fn only_the_first_block_is_taken() {
    let entry = "# ///\nfirst\n# /// script\n# a = 1\n# ///\nmid\n# /// script\n# b = 2\n# ///\nlast";
    let block = split_inline_block(entry);
    assert_eq!(block.entry, "# ///\nfirst\nmid\n# /// script\n# b = 2\n# ///\nlast");
    assert_eq!(block.metadata, "a = 1");
}

#[test]
fn empty_block_declares_nothing() {
    let block = split_inline_block("# /// script\n# ///\nx = 1\n");
    assert_eq!(block.entry, "x = 1");
    assert_eq!(block.metadata, "");
    let block = split_inline_block("# /// script\n# ///");
    assert_eq!(block.entry, "");
}

#[test]
fn entry_file_without_a_block_stays_as_it_is() {
    for entry in ["", "def run(c, p):\r\n    return 1\r\n", "# ///\nx\n", "#/// script\n# ///\n"] {
        let block = split_inline_block(entry);
        assert_eq!(block.entry, entry);
        assert_eq!(block.metadata, "");
    }
}

#[test]
fn start_marker_without_end_marker_changes_nothing() {
    let entry = "import os\n# /// script\n# dependencies = [\"requests\"]\n\ndef run(c, p):\n    return 1\n";
    let block = split_inline_block(entry);
    assert_eq!(block.entry, entry);
    assert_eq!(block.metadata, "");
    let extended = PythonRunner::extend_with_pyproject_toml(bundle(entry)).ok().unwrap();
    assert_eq!(extended.get("main.py"), Some(&entry.to_string()));
    assert_eq!(dependencies(extended.get("pyproject.toml").unwrap()), vec!["jsonpickle~=4.0.0"]);
}

#[test]
fn manifest_lists_the_baseline_and_the_declared_dependencies() {
    let extended = PythonRunner::extend_with_pyproject_toml(bundle(WITH_BLOCK)).ok().unwrap();
    assert_eq!(extended.entrypoint(), "main.py");
    assert_eq!(
        extended.get("main.py"),
        Some(&"import os\n\ndef run(c, p):\n    return 1".to_string())
    );
    assert_eq!(extended.get("helper.py"), Some(&"# /// script\n# ///\n".to_string()));
    let manifest = extended.get("pyproject.toml").unwrap();
    assert_eq!(dependencies(manifest), vec!["jsonpickle~=4.0.0", "requests<3", "rich"]);
    assert_eq!(
        manifest,
        &manifest_by_hand("dependencies = [\n\"requests<3\",\n\"rich\",\n]")
    );
    assert_eq!(extended.entries().len(), 3);
}

#[test]
fn manifest_keeps_dependencies_that_are_declared_twice() {
    let manifest = compose_manifest("dependencies = [\"rich\", \"jsonpickle~=4.0.0\", \"rich\"]")
        .ok()
        .unwrap();
    assert_eq!(
        dependencies(&manifest),
        vec!["jsonpickle~=4.0.0", "rich", "jsonpickle~=4.0.0", "rich"]
    );
}

#[test]
fn manifest_without_metadata_is_the_baseline() {
    let manifest = compose_manifest("").ok().unwrap();
    assert_eq!(manifest, BASELINE_MANIFEST);
    assert_eq!(dependencies(&manifest), vec!["jsonpickle~=4.0.0"]);
    let document = manifest.parse::<toml_edit::DocumentMut>().unwrap();
    assert_eq!(document["project"]["name"].as_str(), Some("shinkai-tool"));
    assert_eq!(document["project"]["version"].as_str(), Some("0.0.1"));
    assert_eq!(document["project"]["requires-python"].as_str(), Some(">=3.13"));
}

#[test]
fn manifest_takes_only_an_array_of_dependencies() {
    for inline in ["requires-python = \">=3.12\"", "dependencies = \"rich\"", "[dependencies]\nrich = \"*\""] {
        let manifest = compose_manifest(inline).ok().unwrap();
        assert_eq!(manifest, manifest_by_hand(inline));
        assert_eq!(dependencies(&manifest), vec!["jsonpickle~=4.0.0"]);
    }
}

#[test]
fn metadata_that_is_no_toml_fails() {
    let inline = "dependencies = [";
    let expected = inline.parse::<toml_edit::DocumentMut>().unwrap_err();
    match compose_manifest(inline) {
        Err(ManifestError::InvalidInlineMetadata(message)) => {
            assert_eq!(message, expected.to_string())
        }
        _ => panic!("the metadata is no TOML document"),
    }
    let entry = "# /// script\n# dependencies = [\n# ///\n";
    let error = PythonRunner::extend_with_pyproject_toml(bundle(entry)).err().unwrap();
    assert!(matches!(error, ManifestError::InvalidInlineMetadata(_)));
    assert_eq!(error.message(), expected.to_string());
}

#[test]
fn missing_entry_file_fails() {
    let files = CodeFiles::new("main.py".to_string())
        .with_file("other.py".to_string(), WITH_BLOCK.to_string());
    let error = PythonRunner::extend_with_pyproject_toml(files).err().unwrap();
    assert!(matches!(error, ManifestError::MissingEntrypoint));
    assert_eq!(error.message(), "Code entrypoint file is empty");
}

#[test]
fn manifest_takes_the_place_of_a_file_of_its_name() {
    let files = bundle("x = 1").with_file("pyproject.toml".to_string(), "old".to_string());
    let extended = with_manifest(files, "y = 2".to_string(), "new".to_string());
    assert_eq!(extended.get("main.py"), Some(&"y = 2".to_string()));
    assert_eq!(extended.get("pyproject.toml"), Some(&"new".to_string()));
    assert_eq!(extended.entries().len(), 3);
}
