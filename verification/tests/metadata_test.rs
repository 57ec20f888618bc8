use adoptium_jdk::proto::register_tool;
use adoptium_jdk::version::SemVersion;

#[test]
fn registers_metadata() {
    let metadata = register_tool();
    assert_eq!(metadata.name, "Eclipse Adoptium OpenJDK");
}

#[test]
fn requires_minimum_host_version() {
    let metadata = register_tool();
    assert_eq!(
        metadata.minimum_proto_version,
        SemVersion { major: 0, minor: 46, patch: 0, build: 0 }
    );
}
