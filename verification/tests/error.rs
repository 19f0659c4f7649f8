use cucumber_trellis::ConfigError;

#[test]
fn each_error_names_its_path() {
    let path = String::from("/some/where");
    assert_eq!(ConfigError::PathIsNotAbsolute { path: path.clone() }.path(), "/some/where");
    assert_eq!(ConfigError::PathDoesNotExist { path: path.clone() }.path(), "/some/where");
    assert_eq!(ConfigError::PathIsNotADirectory { path: path.clone() }.path(), "/some/where");
    assert_eq!(ConfigError::FeatureFileDoesNotExist { path }.path(), "/some/where");
}

#[test]
fn each_error_has_its_message() {
    let path = String::from("/some/where");
    assert_eq!(
        ConfigError::PathIsNotAbsolute { path: path.clone() }.message(),
        "Path is not absolute: /some/where"
    );
    assert_eq!(
        ConfigError::PathDoesNotExist { path: path.clone() }.message(),
        "Path does not exist: /some/where"
    );
    assert_eq!(
        ConfigError::PathIsNotADirectory { path: path.clone() }.message(),
        "Path is not a directory: /some/where"
    );
    assert_eq!(
        ConfigError::FeatureFileDoesNotExist { path }.message(),
        "Feature file does not exist: /some/where"
    );
}
