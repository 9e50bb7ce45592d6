use gfc::manifest::emit_manifest;
use gfc::manifest::parse_manifest;
use gfc::project::GitSource;
use gfc::project::ProjectFile;

fn sample() -> ProjectFile {
    ProjectFile {
        name: "foo".to_string(),
        source: GitSource {
            url: "https://example.com/foo.git".to_string(),
            branch: "main".to_string(),
            path: "docker-compose.yml".to_string(),
        },
    }
}

#[test]
fn emit_manifest_writes_the_canonical_document() {
    let yaml = emit_manifest(&sample());
    assert_eq!(
        yaml,
        "name: foo\nsource:\n  url: https://example.com/foo.git\n  branch: main\n  path: docker-compose.yml\n"
    );
}

#[test]
fn manifest_round_trips_through_serialize_and_parse() {
    let original = sample();
    let yaml = emit_manifest(&original);
    let parsed = parse_manifest(&yaml).unwrap();
    assert_eq!(parsed, original);
}

#[test]
fn parse_manifest_accepts_a_document_marker_and_trailing_blanks() {
    let text = "---\nname: foo\nsource:\n  url: https://example.com/foo.git\n  branch: main\n  path: docker-compose.yml\n\n   \n";
    let parsed = parse_manifest(text).unwrap();
    assert_eq!(parsed, sample());
}

#[test]
fn parse_manifest_trims_values() {
    let text = "name:  foo \nsource:\n  url:  https://example.com/foo.git\n  branch:  main\n  path:  docker-compose.yml \n";
    let parsed = parse_manifest(text).unwrap();
    assert_eq!(parsed, sample());
}

#[test]
fn parse_manifest_rejects_malformed_documents() {
    assert!(parse_manifest("").is_none());
    assert!(parse_manifest("this: is: not: yaml").is_none());
    assert!(parse_manifest("name: foo\nsource:\n  url: u\n  branch: b\n").is_none());
    assert!(parse_manifest("name: foo\nwrong:\n  url: u\n  branch: b\n  path: p\n").is_none());
}

#[test]
fn manifest_round_trips_fields_that_need_quoting() {
    let original = ProjectFile {
        name: "a\nb".to_string(),
        source: GitSource {
            url: " spaced ".to_string(),
            branch: "quo\"te".to_string(),
            path: "tab\there".to_string(),
        },
    };
    let yaml = emit_manifest(&original);
    assert_eq!(parse_manifest(&yaml).unwrap(), original);
}

#[test]
fn emit_manifest_quotes_values_a_plain_scalar_cannot_carry() {
    let p = ProjectFile {
        name: "a\nb".to_string(),
        source: GitSource {
            url: "https://example.com/foo.git".to_string(),
            branch: "main".to_string(),
            path: "docker-compose.yml".to_string(),
        },
    };
    let yaml = emit_manifest(&p);
    assert_eq!(
        yaml,
        "name: \"a\\nb\"\nsource:\n  url: https://example.com/foo.git\n  branch: main\n  path: docker-compose.yml\n"
    );
}

#[test]
fn parse_manifest_reads_quoted_values() {
    let text = "name: \"  padded  \"\nsource:\n  url: \"u\\\\v\"\n  branch: \"m\\\"x\"\n  path: p\n";
    let parsed = parse_manifest(text).unwrap();
    assert_eq!(parsed.name, "  padded  ");
    assert_eq!(parsed.source.url, "u\\v");
    assert_eq!(parsed.source.branch, "m\"x");
    assert_eq!(parsed.source.path, "p");
}

#[test]
fn parse_manifest_rejects_a_bad_escape() {
    let text = "name: \"a\\xb\"\nsource:\n  url: u\n  branch: b\n  path: p\n";
    assert!(parse_manifest(text).is_none());
}

#[test]
fn manifest_round_trips_a_backslash_heavy_definition() {
    let original = ProjectFile {
        name: "back\\slash".to_string(),
        source: GitSource {
            url: "u".to_string(),
            branch: "ends\\".to_string(),
            path: "\"looks quoted\"".to_string(),
        },
    };
    let yaml = emit_manifest(&original);
    assert_eq!(parse_manifest(&yaml).unwrap(), original);
}
