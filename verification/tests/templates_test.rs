use wikify_web::templates::{ChatTemplate, ErrorTemplate, IndexTemplate, RepositoryTemplate, WikiData, WikiTemplate};

#[test]
fn page_titles() {
    let index = IndexTemplate::new(true);
    assert_eq!(index.title, "Wikify - AI-Powered Repository Documentation");
    assert_eq!(index.version, "0.1.0");
    assert!(index.dev_mode);
    let repo = RepositoryTemplate::new("acme/site".to_string(), "s1".to_string(), false);
    assert_eq!(repo.title, "Wikify - acme/site");
    let chat = ChatTemplate::new("acme/site".to_string(), "s1".to_string());
    assert_eq!(chat.title, "Wikify Chat - acme/site");
    let err = ErrorTemplate::new(404, "Not found".to_string());
    assert_eq!(err.title, "Error 404 - Wikify");
    let wiki = WikiData { id: "w".to_string(), title: "Docs".to_string(), description: String::new(), pages: vec![], sections: vec![] };
    let page = WikiTemplate::new(wiki, "s".to_string());
    assert_eq!(page.title, "Wikify - Docs");
}
