use gemma_core::path_util::sanitize_path_component;

#[test]
fn test_sanitize_path_component_valid_put() {
    assert_eq!(sanitize_path_component("valid-name_1.2"), "valid-name_1.2");
    assert_eq!(sanitize_path_component("abc_XYZ-123.dot"), "abc_XYZ-123.dot");
}

#[test]
fn test_sanitize_path_component_replaces_invalid_put() {
    assert_eq!(sanitize_path_component("invalidname?"), "invalidname_");
    assert_eq!(sanitize_path_component("path/to/file"), "path_to_file");
    assert_eq!(
        sanitize_path_component("Тестовая строка с кириллицей"),
        "____________________________"
    );
    assert_eq!(
        sanitize_path_component("a!b@c#d$e%f^g&h*i(j)k"),
        "a_b_c_d_e_f_g_h_i_j_k"
    );
    assert_eq!(sanitize_path_component(" leading_space"), "_leading_space");
    assert_eq!(sanitize_path_component("trailing_space "), "trailing_space_");
    assert_eq!(sanitize_path_component("new\nline"), "new_line");
    assert_eq!(sanitize_path_component("tab\tchar"), "tab_char");
}

#[test]
fn test_sanitize_path_component_empty_and_all_invalid_put() {
    assert_eq!(sanitize_path_component(""), "");
    assert_eq!(sanitize_path_component("!@#$%^"), "______");
    assert_eq!(sanitize_path_component("   "), "___");
}

#[test]
fn test_sanitize_path_component_with_underscore_put() {
    assert_eq!(
        sanitize_path_component("name_with_underscore"),
        "name_with_underscore"
    );
    assert_eq!(
        sanitize_path_component("name__with__double"),
        "name__with__double"
    );
}
