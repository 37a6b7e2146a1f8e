use mcsdk::software::Software;
use mcsdk::workspace::{
    check_working_directory, DirectoryCheck, consent_path, createdir, generate_random_uuid, get_temp_folder, is_user_writable, leaf_dir_name, plugins_dir,
    scratch_candidates, DirStep, ScratchError, ScratchProbe, ScratchRoot, CONSENT_FILE, CONSENT_TEXT, EPHEMERAL,
    FIXED_SCRATCH, PLUGINS_DIR, SCRATCH_PARENT, SUFFIX_LEN, TEMP_PREFIX,
};
use mcsdk::paths::join_path;
use std::collections::HashSet;

fn probe(path: &str, mode: Option<u32>) -> ScratchProbe {
    ScratchProbe { path: path.to_string(), mode }
}

fn stub_suffix(n: u32) -> String {
    let alphabet: Vec<char> = "ABCDEFGHIJKLMNOPQRSTUVWXYZabcdefghijklmnopqrstuvwxyz0123456789".chars().collect();
    let mut out = String::new();
    let mut rest = n as usize;
    for _ in 0..8 {
        out.push(alphabet[rest % alphabet.len()]);
        rest /= alphabet.len();
    }
    out
}

#[test]
fn constants_of_the_workspace() {
    assert_eq!(EPHEMERAL, "none");
    assert_eq!(FIXED_SCRATCH, "/var/tmp");
    assert_eq!(SCRATCH_PARENT, "mcsdk");
    assert_eq!(TEMP_PREFIX, "mcsdk-tmp");
    assert_eq!(CONSENT_FILE, "eula.txt");
    assert_eq!(CONSENT_TEXT, "eula=true");
    assert_eq!(CONSENT_TEXT.as_bytes(), b"eula=true");
    assert_eq!(PLUGINS_DIR, "plugins");
    assert_eq!(SUFFIX_LEN, 8);
}

#[test]
fn random_suffix_has_eight_letters_or_digits() {
    for _ in 0..200 {
        let s = generate_random_uuid();
        assert_eq!(s.chars().count(), 8);
        assert!(s.chars().all(|c| c.is_ascii_alphanumeric()), "{:?}", s);
    }
}

#[test]
fn random_suffixes_vary() {
    let drawn: HashSet<String> = (0..50).map(|_| generate_random_uuid()).collect();
    assert!(drawn.len() > 1);
}

#[test]
fn leaf_name_is_family_version_suffix() {
    assert_eq!(leaf_dir_name(Software::Paper, "1.20.4", "AbCd1234"), "Paper:1.20.4-AbCd1234");
    assert_eq!(leaf_dir_name(Software::Spigot, "1.8.9", "00000000"), "Spigot:1.8.9-00000000");
    assert_eq!(leaf_dir_name(Software::Paper, "", ""), "Paper:-");
}

#[test]
fn thousand_workspaces_with_distinct_suffixes_never_collide() {
    let mut names = HashSet::new();
    let mut paths = HashSet::new();
    for n in 0..1000u32 {
        let leaf = leaf_dir_name(Software::Paper, "1.20.4", &stub_suffix(n));
        let path = join_path(&join_path("/var/tmp", SCRATCH_PARENT), &leaf);
        assert!(names.insert(leaf), "name collision at {}", n);
        assert!(paths.insert(path), "path collision at {}", n);
    }
    assert_eq!(names.len(), 1000);
    assert_eq!(paths.len(), 1000);
}

#[test]
fn thousand_workspaces_share_one_parent() {
    let parent = join_path("/var/tmp", SCRATCH_PARENT);
    assert_eq!(parent, "/var/tmp/mcsdk");
    for n in 0..1000u32 {
        let leaf = leaf_dir_name(Software::Spigot, "1.20.4", &stub_suffix(n));
        let path = join_path(&parent, &leaf);
        assert!(path.starts_with("/var/tmp/mcsdk/Spigot:1.20.4-"));
        assert_eq!(createdir(true), DirStep::Keep);
    }
}

#[test]
fn drawn_workspace_names_do_not_collide() {
    let mut names = HashSet::new();
    for _ in 0..1000 {
        let leaf = leaf_dir_name(Software::Paper, "1.20.4", &generate_random_uuid());
        assert!(leaf.starts_with("Paper:1.20.4-"));
        assert_eq!(leaf.len(), "Paper:1.20.4-".len() + 8);
        names.insert(leaf);
    }
    assert!(names.len() >= 999);
}

#[test]
fn existing_directory_is_kept_and_missing_one_created() {
    assert_eq!(createdir(true), DirStep::Keep);
    assert_eq!(createdir(false), DirStep::Create);
}

#[test]
fn derived_paths_of_a_workspace() {
    assert_eq!(consent_path("/srv/w"), "/srv/w/eula.txt");
    assert_eq!(plugins_dir("/srv/w"), "/srv/w/plugins");
    assert_eq!(consent_path("/srv/w/"), "/srv/w/eula.txt");
}

#[test]
fn owner_write_bit_decides_writability() {
    assert!(is_user_writable(0o200));
    assert!(is_user_writable(0o755));
    assert!(is_user_writable(0o1777));
    assert!(is_user_writable(0o40777));
    assert!(!is_user_writable(0));
    assert!(!is_user_writable(0o555));
    assert!(!is_user_writable(0o577));
    assert!(!is_user_writable(0o022));
}

#[test]
fn scratch_candidates_are_the_fixed_location() {
    assert_eq!(scratch_candidates(), vec!["/var/tmp".to_string()]);
}

#[test]
fn writable_fixed_scratch_is_preferred() {
    let probes = vec![probe("/var/tmp", Some(0o41777))];
    assert_eq!(get_temp_folder(&probes, Some("/tmp")), Ok(ScratchRoot::Fixed("/var/tmp".to_string())));
    assert_eq!(get_temp_folder(&probes, None), Ok(ScratchRoot::Fixed("/var/tmp".to_string())));
}

#[test]
fn first_writable_candidate_wins() {
    let probes = vec![probe("/a", Some(0o555)), probe("/b", None), probe("/c", Some(0o700)), probe("/d", Some(0o700))];
    assert_eq!(get_temp_folder(&probes, Some("/tmp")), Ok(ScratchRoot::Fixed("/c".to_string())));
}

#[test]
fn platform_temp_is_the_fallback() {
    let expected = Ok(ScratchRoot::FreshUnder { parent: "/tmp".to_string(), prefix: "mcsdk-tmp".to_string() });
    assert_eq!(get_temp_folder(&vec![probe("/var/tmp", Some(0o555))], Some("/tmp")), expected);
    assert_eq!(get_temp_folder(&vec![probe("/var/tmp", None)], Some("/tmp")), expected);
    assert_eq!(get_temp_folder(&vec![], Some("/tmp")), expected);
}

#[test]
fn no_scratch_without_platform_temp() {
    assert_eq!(get_temp_folder(&vec![probe("/var/tmp", Some(0o444))], None), Err(ScratchError::NoPlatformTemp));
    assert_eq!(get_temp_folder(&vec![], None), Err(ScratchError::NoPlatformTemp));
}

#[test]
fn working_directory_is_judged() {
    assert_eq!(check_working_directory("none", false), DirectoryCheck::Ephemeral);
    assert_eq!(check_working_directory("none", true), DirectoryCheck::Ephemeral);
    assert_eq!(check_working_directory("/srv/w", true), DirectoryCheck::Usable);
    assert_eq!(check_working_directory("/srv/w", false), DirectoryCheck::NotADirectory);
    assert_eq!(check_working_directory("None", false), DirectoryCheck::NotADirectory);
    assert_eq!(check_working_directory("", true), DirectoryCheck::Usable);
}
