use mcsdk::console::{info_line, TAG};
use mcsdk::resolver::ArtifactReference;

#[test]
fn announcement_is_tagged_and_coloured() {
    assert_eq!(TAG, "MC-SDK");
    assert_eq!(
        info_line("Server Stopped."),
        "\x1b[0;90m[\x1b[0;92mMC-SDK\x1b[0;90m]\x1b[0;92m Server Stopped.\x1b[0m"
    );
    assert_eq!(info_line(""), "\x1b[0;90m[\x1b[0;92mMC-SDK\x1b[0;90m]\x1b[0;92m \x1b[0m");
}

#[test]
fn artifact_is_saved_under_its_name_in_its_directory() {
    let artifact = ArtifactReference {
        url: "https://e.test/paper.jar".to_string(),
        directory: "/srv/w".to_string(),
        file_name: "server.jar".to_string(),
    };
    assert_eq!(artifact.path(), "/srv/w/server.jar");
}
