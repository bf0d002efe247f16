use python_supervisor::validate::{
    check_extension, sanitize_argument, sanitize_python_args, validate_file_path, ValidationError,
};

fn unsupported(extension: &str) -> ValidationError {
    ValidationError::UnsupportedType { extension: Some(extension.to_string()) }
}

#[test]
fn traversal_is_refused_before_anything_else() {
    assert_eq!(validate_file_path("../etc/passwd"), Err(ValidationError::PathTraversal));
    assert_eq!(validate_file_path("a|b/../c.txt"), Err(ValidationError::PathTraversal));
    assert_eq!(validate_file_path("notes..txt"), Err(ValidationError::PathTraversal));
    assert_eq!(validate_file_path(".."), Err(ValidationError::PathTraversal));
}

#[test]
fn forbidden_characters_are_reported_in_list_order() {
    assert_eq!(
        validate_file_path("a;b|c.txt"),
        Err(ValidationError::ForbiddenCharacter { found: '|' })
    );
    assert_eq!(
        validate_file_path("a}b{c.txt"),
        Err(ValidationError::ForbiddenCharacter { found: '{' })
    );
    for found in ['|', ';', '&', '$', '`', '>', '<', '!', '{', '}'] {
        let path = format!("dir/na{}me.txt", found);
        assert_eq!(validate_file_path(&path), Err(ValidationError::ForbiddenCharacter { found }));
    }
}

#[test]
fn allowed_extensions_pass_whatever_their_case() {
    for path in ["a.txt", "b.md", "c.doc", "d.docx", "e.rtf", "F.TXT", "dir/g.Md", "h.DocX"] {
        assert_eq!(validate_file_path(path), Ok(()), "{}", path);
    }
}

#[test]
fn other_extensions_are_refused_in_lower_case() {
    assert_eq!(validate_file_path("report.PDF"), Err(unsupported(".pdf")));
    assert_eq!(validate_file_path("archive.tar.gz"), Err(unsupported(".gz")));
    assert_eq!(validate_file_path("a.txt2"), Err(unsupported(".txt2")));
}

#[test]
fn missing_extension_is_refused() {
    let none = Err(ValidationError::UnsupportedType { extension: None });
    assert_eq!(validate_file_path("README"), none);
    assert_eq!(validate_file_path(".txt"), none);
    assert_eq!(validate_file_path(""), none);
}

#[test]
fn extension_check_takes_lower_case_text() {
    assert_eq!(check_extension(Some("txt")), Ok(()));
    assert_eq!(check_extension(Some("rtf")), Ok(()));
    assert_eq!(check_extension(Some("TXT")), Err(unsupported(".TXT")));
    assert_eq!(check_extension(Some("")), Err(unsupported(".")));
    assert_eq!(check_extension(None), Err(ValidationError::UnsupportedType { extension: None }));
}

#[test]
fn arguments_are_checked_against_the_narrower_set() {
    assert_eq!(sanitize_argument("a > b ! {c}"), Ok(()));
    assert_eq!(
        sanitize_argument("a; b & c"),
        Err(ValidationError::DangerousArgument { found: ';', argument: "a; b & c".to_string() })
    );
    for found in ['|', ';', '&', '$', '`'] {
        let argument = format!("x{}y", found);
        assert_eq!(
            sanitize_argument(&argument),
            Err(ValidationError::DangerousArgument { found, argument: argument.clone() })
        );
    }
}

#[test]
fn first_refused_argument_is_reported() {
    let args = vec!["--json".to_string(), "a`b".to_string(), "c|d".to_string()];
    assert_eq!(
        sanitize_python_args(&args),
        Err(ValidationError::DangerousArgument { found: '`', argument: "a`b".to_string() })
    );
    let clean = vec!["--json".to_string(), "plain text".to_string(), String::new()];
    assert_eq!(sanitize_python_args(&clean), Ok(()));
    assert_eq!(sanitize_python_args(&[]), Ok(()));
}

#[test]
fn clean_input_passes_both_checks() {
    let args = vec!["--collection".to_string(), "documents".to_string()];
    assert_eq!(validate_file_path("C:\\Users\\me\\notes.md"), Ok(()));
    assert_eq!(sanitize_python_args(&args), Ok(()));
}

#[test]
fn validation_messages_are_exact() {
    assert_eq!(
        ValidationError::PathTraversal.message(),
        "Invalid file path: path traversal detected"
    );
    assert_eq!(
        ValidationError::ForbiddenCharacter { found: '$' }.message(),
        "Invalid file path: forbidden character '$' detected"
    );
    assert_eq!(
        unsupported(".pdf").message(),
        "Unsupported file type '.pdf'. Only .txt, .md, .doc, .docx, .rtf are allowed."
    );
    assert_eq!(
        ValidationError::UnsupportedType { extension: None }.message(),
        "File has no extension. Only .txt and .md are allowed."
    );
    assert_eq!(
        ValidationError::DangerousArgument { found: '&', argument: "a&b".to_string() }.message(),
        "Invalid argument: forbidden character '&' detected in 'a&b'"
    );
    assert_eq!(ValidationError::EmptyBatch.message(), "No files provided for batch processing");
}
