use render_gl::resources::{cstring_from_bytes, resource_name_to_path, Error, Resources};

#[test]
fn resource_name_splits_on_slashes() {
    let path = resource_name_to_path(&"/opt/game/assets".to_string(), "shaders/triangle.vert");
    assert_eq!(path, vec!["/opt/game/assets", "shaders", "triangle.vert"]);
}

#[test]
fn resource_name_without_slash_and_with_empty_parts() {
    let root = "root".to_string();
    assert_eq!(resource_name_to_path(&root, "a.frag"), vec!["root", "a.frag"]);
    assert_eq!(resource_name_to_path(&root, "a//b/"), vec!["root", "a", "", "b", ""]);
    assert_eq!(resource_name_to_path(&root, ""), vec!["root", ""]);
}

#[test]
fn resources_prefix_their_root() {
    let res = Resources::new("assets".to_string());
    assert_eq!(res.path_of("shaders/x.vert"), vec!["assets", "shaders", "x.vert"]);
}

#[test]
fn text_with_nul_is_rejected() {
    assert!(matches!(cstring_from_bytes(vec![b'a', 0, b'b']), Err(Error::FileContainsNil)));
    assert_eq!(cstring_from_bytes(b"void main() {}".to_vec()).unwrap(), b"void main() {}".to_vec());
    assert_eq!(cstring_from_bytes(Vec::new()).unwrap(), Vec::<u8>::new());
}
