use gemma_core::utils_error::UtilsError;

#[test]
fn test_config_error_formatting() {
    let err = UtilsError::Config("Invalid config format".to_string());
    assert_eq!(err.message(), "Configuration error: Invalid config format");
}

#[test]
fn test_invalid_parameter_formatting() {
    let err = UtilsError::InvalidParameter("Null value not allowed".to_string());
    assert_eq!(err.message(), "Invalid parameter: Null value not allowed");
}

#[test]
fn test_not_supported_formatting() {
    let err = UtilsError::NotSupported("Legacy API version".to_string());
    assert_eq!(
        err.message(),
        "Operation or feature not supported: Legacy API version"
    );
}

#[test]
fn test_resource_not_found_formatting() {
    let err = UtilsError::ResourceNotFound("Model 'llama-7b' not found".to_string());
    assert_eq!(
        err.message(),
        "Resource not found: Model 'llama-7b' not found"
    );
}

#[test]
fn test_generic_error_formatting() {
    let err = UtilsError::Generic("Something unexpected happened".to_string());
    assert_eq!(
        err.message(),
        "A generic utility error occurred: Something unexpected happened"
    );
}

#[test]
fn test_io_error_message_with_path() {
    let err = UtilsError::io_with_path(
        "file not found".to_string(),
        "non_existent_file.txt".to_string(),
    );
    match &err {
        UtilsError::Io {
            source,
            path: Some(p),
        } => {
            assert!(source.contains("file not found"));
            assert_eq!(p, "non_existent_file.txt");
        }
        _ => panic!("Expected UtilsError::Io variant with path"),
    }
    assert_eq!(err.message(), "I/O error: file not found");
}

#[test]
fn test_serde_json_error_conversion_utils() {
    let json_str = "{ \"key\": invalid }";
    let serde_err_result: Result<serde_json::Value, _> = serde_json::from_str(json_str);
    assert!(serde_err_result.is_err());
    let serde_err = serde_err_result.unwrap_err();

    let utils_err = UtilsError::from_json_error(serde_err);

    match utils_err {
        UtilsError::Deserialization(msg) => {
            assert!(msg.contains("JSON error:"), "Error message was: {}", msg);
            assert!(
                msg.contains("expected value at line 1 column 10")
                    || msg.contains("expected value at line 1 column 11")
                    || msg.contains("key must be a string")
                    || msg.contains("invalid type: identifier `invalid`"),
                "Specific JSON error not found in: {}",
                msg
            );
        }
        _ => panic!(
            "Expected UtilsError::Deserialization variant, got {:?}",
            utils_err
        ),
    }
}

#[test]
fn test_toml_de_error_conversion_utils() {
    let toml_str = "key = invalid_toml_value";
    let toml_err_result: Result<toml::Value, _> = toml::from_str(toml_str);
    assert!(toml_err_result.is_err());
    let toml_err = toml_err_result.unwrap_err();
    let utils_err = UtilsError::from_toml_de_error(toml_err);

    match utils_err {
        UtilsError::Deserialization(msg) => {
            assert!(
                msg.contains("TOML deserialization error:"),
                "Error message was: {}",
                msg
            );
            assert!(
                msg.contains("invalid_toml_value")
                    || msg.contains("invalid type: identifier")
                    || msg.contains("expected a value")
                    || msg.contains("string values must be quoted"),
                "Specific TOML error not found in: {}",
                msg
            );
        }
        _ => panic!(
            "Expected UtilsError::Deserialization variant, got {:?}",
            utils_err
        ),
    }
}

#[test]
fn test_toml_ser_error_conversion_utils() {
    let toml_ser_err =
        <toml::ser::Error as serde::ser::Error>::custom("custom toml serialization error");
    let utils_err = UtilsError::from_toml_ser_error(toml_ser_err);

    match utils_err {
        UtilsError::Serialization(msg) => {
            assert!(
                msg.contains("TOML serialization error:"),
                "Error message was: {}",
                msg
            );
            assert!(
                msg.contains("custom toml serialization error"),
                "Specific TOML error not found in: {}",
                msg
            );
        }
        _ => panic!(
            "Expected UtilsError::Serialization variant, got {:?}",
            utils_err
        ),
    }
}
