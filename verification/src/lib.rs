//! Provisioning and lifecycle rules for a local game-server test instance.
//!
//! The crate decides; it never touches the network, the disk or a process
//! table. Every step that needs the outside world is described as an action
//! for the caller to perform, and the caller reports back what happened as an
//! event. All strings that name files are `/`-separated paths.

pub mod paths;
pub mod text;
pub mod upstream;
pub mod software;
pub mod version;
pub mod resolver;
pub mod workspace;
pub mod staging;
pub mod download;
pub mod server;
pub mod process;
pub mod console;
pub mod history;

pub use resolver::{download_server_software, Paper_get_Download_link};
pub use server::Server;
pub use software::Software;
pub use version::check_valid_version;
pub use workspace::createdir;
