use cargo_spdx::document::build_document;
use cargo_spdx::document::get_creation_info;
use cargo_spdx::document::CreationInfo;
use cargo_spdx::document::Spdx;
use cargo_spdx::output::Format;
use cargo_spdx::output::OutputError;
use cargo_spdx::output::OutputManager;
use cargo_spdx::output::WriteAction;
use cargo_spdx::paths::file_name_of;

fn empty_document() -> Spdx {
    build_document("app.spdx", "https://example.com/sbom", get_creation_info(&None))
}

#[test]
fn file_name_component_of_paths() {
    assert_eq!(file_name_of("foo/bar.spdx").as_deref(), Some("bar.spdx"));
    assert_eq!(file_name_of("bar.spdx").as_deref(), Some("bar.spdx"));
    assert_eq!(file_name_of("foo/").as_deref(), Some("foo"));
    assert_eq!(file_name_of("foo/.").as_deref(), Some("foo"));
    assert_eq!(file_name_of("/tmp/out.json").as_deref(), Some("out.json"));
    assert_eq!(file_name_of("...").as_deref(), Some("..."));
    assert_eq!(file_name_of(""), None);
    assert_eq!(file_name_of("/"), None);
    assert_eq!(file_name_of("."), None);
    assert_eq!(file_name_of(".."), None);
    assert_eq!(file_name_of("foo/.."), None);
}

#[test]
fn write_rejects_path_without_file_name() {
    let doc = empty_document();
    for path in ["", "/", ".", "..", "foo/.."] {
        let manager = OutputManager::new(path, true, Format::KeyValue);
        let result = manager.write_document(&doc, false, false);
        let error = result.err().expect("path without file name must be rejected");
        assert!(matches!(error, OutputError::MissingFileName));
        assert_eq!(error.message(), "missing output file name");
    }
}

#[test]
fn write_rejects_directory_destination() {
    let doc = empty_document();
    let manager = OutputManager::new("somedir", false, Format::KeyValue);
    let result = manager.write_document(&doc, true, true);
    let error = result.err().expect("a directory destination must be rejected");
    assert!(matches!(error, OutputError::IsDirectory));
    assert_eq!(error.message(), "output can't be a directory");
}

#[test]
fn write_honours_the_force_flag() {
    let doc = empty_document();

    // exists and not forced: error naming the path
    let manager = OutputManager::new("out.spdx", false, Format::KeyValue);
    let error = manager
        .write_document(&doc, true, false)
        .err()
        .expect("an existing destination must be rejected without force");
    assert!(matches!(error, OutputError::AlreadyExists { .. }));
    assert_eq!(error.message(), "output file already exists: out.spdx");

    // exists and forced: allowed
    let manager = OutputManager::new("out.spdx", true, Format::KeyValue);
    assert!(manager.write_document(&doc, true, false).is_ok());

    // doesn't exist: allowed either way
    let manager = OutputManager::new("out.spdx", false, Format::KeyValue);
    assert!(manager.write_document(&doc, false, false).is_ok());
    let manager = OutputManager::new("out.spdx", true, Format::KeyValue);
    assert!(manager.write_document(&doc, false, false).is_ok());
}

#[test]
fn graph_format_is_not_implemented() {
    let empty = empty_document();
    let manager = OutputManager::new("out.rdf", true, Format::Rdf);
    let error = manager
        .write_document(&empty, false, false)
        .err()
        .expect("the graph format must be rejected");
    assert!(matches!(error, OutputError::NotImplemented { format: Format::Rdf }));
    let message = error.message();
    assert_eq!(message, "RDF format not yet implemented");
    assert!(message.contains("not yet implemented"));
    assert!(message.contains("RDF"));

    // regardless of document content
    let mut doc = empty_document();
    doc.document_creation_information.document_comment = Some("a comment".to_string());
    let error = manager.write_document(&doc, false, false).err().unwrap();
    assert!(matches!(error, OutputError::NotImplemented { format: Format::Rdf }));
}

#[test]
fn dispatch_matches_the_chosen_format() {
    let doc = empty_document();

    let manager = OutputManager::new("out.spdx", false, Format::KeyValue);
    match manager.write_document(&doc, false, false).unwrap() {
        WriteAction::WriteText { content } => {
            assert_eq!(content, cargo_spdx::key_value::write(&doc));
        }
        _ => panic!("key-value must render text"),
    }

    let manager = OutputManager::new("out.json", false, Format::Json);
    assert!(matches!(
        manager.write_document(&doc, false, false).unwrap(),
        WriteAction::EncodeJson
    ));

    let manager = OutputManager::new("out.yaml", false, Format::Yaml);
    assert!(matches!(
        manager.write_document(&doc, false, false).unwrap(),
        WriteAction::EncodeYaml
    ));
}

#[test]
fn empty_document_serializes_in_every_implemented_format() {
    let doc = empty_document();
    for format in [Format::KeyValue, Format::Json, Format::Yaml] {
        let manager = OutputManager::new("out", false, format);
        assert!(manager.write_document(&doc, false, false).is_ok());
    }
    let rendering = cargo_spdx::key_value::write(&doc);
    assert!(rendering.contains("SPDXVersion: SPDX-2.2\n"));
    assert!(rendering.contains("DocumentName: app.spdx\n"));
}

#[test]
fn format_extensions_and_names() {
    assert_eq!(Format::KeyValue.extension(), ".spdx");
    assert_eq!(Format::Json.extension(), ".json");
    assert_eq!(Format::Yaml.extension(), ".yaml");
    assert_eq!(Format::Rdf.extension(), ".rdf");
    assert_eq!(Format::KeyValue.name(), "Key-Value");
    assert_eq!(Format::Json.name(), "JSON");
    assert_eq!(Format::Yaml.name(), "YAML");
    assert_eq!(Format::Rdf.name(), "RDF");
}

#[test]
fn new_keeps_its_configuration() {
    let manager = OutputManager::new("some/path.spdx", true, Format::Yaml);
    assert_eq!(manager.to, "some/path.spdx");
    assert_eq!(manager.format, Format::Yaml);
    assert!(manager.force);
}

#[test]
fn key_value_rendering_is_exact() {
    let info = CreationInfo {
        license_list_version: Some("3.17".to_string()),
        creators: vec![
            "Person: Jane Doe (jane@x.io)".to_string(),
            "Tool: cargo-spdx 0.1.0".to_string(),
        ],
        created: "2024-01-02T03:04:05+00:00".to_string(),
        creator_comment: Some("made by hand".to_string()),
    };
    let mut doc = build_document("thing.spdx", "https://example.com/ns", info);
    doc.document_creation_information.document_comment = Some("doc note".to_string());
    let expected = "SPDXVersion: SPDX-2.2\n\
                    DataLicense: CC0-1.0\n\
                    SPDXID: SPDXRef-DOCUMENT\n\
                    DocumentName: thing.spdx\n\
                    DocumentNamespace: https://example.com/ns\n\
                    LicenseListVersion: 3.17\n\
                    Creator: Person: Jane Doe (jane@x.io)\n\
                    Creator: Tool: cargo-spdx 0.1.0\n\
                    Created: 2024-01-02T03:04:05+00:00\n\
                    CreatorComment: made by hand\n\
                    DocumentComment: doc note\n";
    assert_eq!(cargo_spdx::key_value::write(&doc), expected);
}

#[test]
fn key_value_omits_absent_optional_fields() {
    let doc = empty_document();
    let rendering = cargo_spdx::key_value::write(&doc);
    assert!(!rendering.contains("LicenseListVersion"));
    assert!(!rendering.contains("CreatorComment"));
    assert!(!rendering.contains("DocumentComment"));
    assert!(rendering.contains("Creator: Tool: cargo-spdx 0.1.0\n"));
}
