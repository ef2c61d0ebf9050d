use ai_pod::identity::{container_name, volume_name};
use ai_pod::image::hash_recipe;

#[test]
fn identity_is_deterministic() {
    let a = container_name("/home/user/project");
    let b = container_name("/home/user/project");
    assert_eq!(a, b);
}

#[test]
fn identity_has_fixed_shape() {
    let name = container_name("/home/user/project");
    assert!(name.starts_with("aipod-"));
    assert_eq!(name.len(), "aipod-".len() + 12);
    assert!(name["aipod-".len()..].chars().all(|c| c.is_ascii_hexdigit() && !c.is_ascii_uppercase()));
}

#[test]
fn distinct_paths_get_distinct_identities() {
    let a = container_name("/home/user/project-a");
    let b = container_name("/home/user/project-b");
    assert_ne!(a, b);
}

#[test]
fn identity_matches_digest_prefix() {
    let path = "/home/user/project";
    let name = container_name(path);
    let digest = hash_recipe(path.as_bytes());
    assert_eq!(&name["aipod-".len()..], &digest[..12]);
}

#[test]
fn volume_name_suffixes_identity() {
    assert_eq!(volume_name("aipod-0a1b2c3d4e5f"), "aipod-0a1b2c3d4e5f-data");
}

#[test]
fn recipe_digest_of_empty_input() {
    assert_eq!(
        hash_recipe(b""),
        "e3b0c44298fc1c149afbf4c8996fb92427ae41e4649b934ca495991b7852b855"
    );
}

#[test]
fn recipe_digest_known_vector() {
    assert_eq!(
        hash_recipe(b"abc"),
        "ba7816bf8f01cfea414140de5dae2223b00361a396177a9cb410ff61f20015ad"
    );
}
