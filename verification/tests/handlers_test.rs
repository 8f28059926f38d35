use wikify_web::error::WebError;
use wikify_web::handlers::{
    parse_research_category, ResearchCategory,
    chat_error_answer, count_words, delete_failure_status, detect_repo_type, extract_progress_numbers,
    file_tree_response, initialize_failure_status, last_path_segment, main_documentation_page,
    parse_usize, progress_numbers_from_captures, readme_response, reading_time, requested_repo_type,
    source_reference, wiki_content_of, wiki_description_for, wiki_title_for, DeleteRepositoryResponse,
    GenerateWikiResponse, IndexingStatus, InitializeRepositoryRequest, InitializeRepositoryResponse,
    RepositoryFileInfo,
};

#[test]
fn repository_types_are_detected() {
    assert_eq!(detect_repo_type("https://github.com/a/b"), "github");
    assert_eq!(detect_repo_type("https://gitlab.com/a/b"), "gitlab");
    assert_eq!(detect_repo_type("/srv/code"), "local");
    let request = InitializeRepositoryRequest {
        repository: "https://github.com/a/b".to_string(),
        repo_type: Some("local".to_string()),
        access_token: None,
        auto_index: None,
        auto_generate_wiki: None,
        metadata: None,
    };
    assert_eq!(requested_repo_type(&request), "local");
}

#[test]
fn progress_numbers_in_messages() {
    assert_eq!(extract_progress_numbers("Processing 37/53 nodes"), (Some(37), Some(53)));
    assert_eq!(extract_progress_numbers("no numbers here"), (None, None));
    assert_eq!(extract_progress_numbers("a 1/2 then 3/4"), (Some(1), Some(2)));
    assert_eq!(extract_progress_numbers("99999999999999999999999/1"), (None, None));
    assert_eq!(progress_numbers_from_captures(Some(("4".to_string(), "x".to_string()))), (None, None));
    assert_eq!(progress_numbers_from_captures(None), (None, None));
}

#[test]
fn usize_parsing() {
    assert_eq!(parse_usize("0"), Some(0));
    assert_eq!(parse_usize("+12"), Some(12));
    assert_eq!(parse_usize(""), None);
    assert_eq!(parse_usize("+"), None);
    assert_eq!(parse_usize("-1"), None);
    assert_eq!(parse_usize("1a"), None);
    assert_eq!(parse_usize("18446744073709551615"), Some(usize::MAX));
    assert_eq!(parse_usize("18446744073709551616"), None);
}

#[test]
fn failure_statuses() {
    assert_eq!(initialize_failure_status("Repository is already being indexed"), 409);
    assert_eq!(initialize_failure_status("indexing already in progress"), 409);
    assert_eq!(initialize_failure_status("disk full"), 500);
    assert_eq!(delete_failure_status(&WebError::NotFound("x".to_string())), 404);
    assert_eq!(delete_failure_status(&WebError::Internal("x".to_string())), 500);
}

#[test]
fn status_labels() {
    assert_eq!(IndexingStatus::Completed.label(), "indexed");
    assert_eq!(IndexingStatus::Pending.label(), "pending");
    assert_eq!(IndexingStatus::Cancelled.label(), "cancelled");
}

#[test]
fn responses() {
    let r = InitializeRepositoryResponse::initialized("r1".to_string());
    assert_eq!(r.status, "success");
    assert_eq!(r.message, "Repository initialized successfully");
    let r = InitializeRepositoryResponse::reindexing("r1".to_string());
    assert_eq!(r.message, "Repository reindexing started successfully");
    let d = DeleteRepositoryResponse::deleted("r2".to_string());
    assert_eq!(d.deleted_repository_id, "r2");
    let g = GenerateWikiResponse::not_implemented("r3".to_string());
    assert_eq!(g.wiki_id, "r3");
    assert_eq!(g.status, "not_implemented");
    assert_eq!(chat_error_answer("boom"), "Sorry, I encountered an error while processing your question: boom");
    assert_eq!(source_reference("a.rs"), "Source: a.rs");
    let files = vec![RepositoryFileInfo { path: "a".to_string(), file_type: "file".to_string(), size: Some(1), sha: None }];
    assert_eq!(file_tree_response("r".to_string(), None, files).total_files, 1);
    assert!(readme_response("r".to_string(), None, Some("# x".to_string())).found);
    assert!(!readme_response("r".to_string(), None, None).found);
}

#[test]
fn words_and_reading_time() {
    assert_eq!(count_words(""), 0);
    assert_eq!(count_words("  one two\tthree\n"), 3);
    assert_eq!(reading_time("short text"), 1);
    let long = "word ".repeat(1000);
    assert_eq!(reading_time(&long), 5);
}

#[test]
fn wiki_fallbacks() {
    assert_eq!(last_path_segment("https://github.com/user/repo"), "repo");
    assert_eq!(last_path_segment("plain"), "plain");
    assert_eq!(last_path_segment("ends/"), "");
    assert_eq!(wiki_title_for("https://github.com/user/repo"), "repo Wiki");
    assert_eq!(wiki_description_for("u"), "Generated wiki for repository: u");
    assert_eq!(wiki_content_of(None, "T", "D"), "# T\n\nD\n\nNo content pages were generated.");
    assert_eq!(wiki_content_of(Some("body"), "T", "D"), "body");
    let page = main_documentation_page("a b c".to_string(), "2024-01-01T00:00:00+00:00".to_string());
    assert_eq!(page.id, "main");
    assert_eq!(page.importance, "Critical");
    assert_eq!(page.tags, vec!["documentation".to_string()]);
    assert_eq!(page.reading_time, 1);
}

#[test]
fn unicode_white_space_separates_words() {
    assert_eq!(wikify_web::handlers::count_words("a\u{3000}b\u{85}c\u{2009}d\u{200B}e"), 4);
}

#[test]
fn white_space_matches_std_for_every_char() {
    for n in 0u32..=0x10FFFF {
        if let Some(c) = char::from_u32(n) {
            let text = format!("a{}b", c);
            let expected = if c.is_whitespace() { 2 } else { 1 };
            assert_eq!(count_words(&text), expected, "char U+{:04X}", n);
        }
    }
}

#[test]
fn research_categories_ignore_case() {
    use_category_cases();
}

fn use_category_cases() {
    let cases = [
        ("security", Some(ResearchCategory::Security)),
        ("Architecture", Some(ResearchCategory::Architecture)),
        ("PERFORMANCE", Some(ResearchCategory::Performance)),
        ("documentation", Some(ResearchCategory::Documentation)),
        ("TeChNiCaL", Some(ResearchCategory::Technical)),
        ("business", Some(ResearchCategory::Business)),
        ("custom", Some(ResearchCategory::Custom)),
        ("customs", None),
        ("", None),
        ("sécurity", None),
    ];
    for (text, expected) in cases {
        assert_eq!(parse_research_category(text), expected, "{}", text);
        let by_std = match text.to_lowercase().as_str() {
            "security" | "architecture" | "performance" | "documentation" | "technical" | "business"
            | "custom" => true,
            _ => false,
        };
        assert_eq!(parse_research_category(text).is_some(), by_std);
    }
}
