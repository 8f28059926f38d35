//! The OpenAPI description of the HTTP API.
//!
//! The document is built here as plain data (title, servers, operations
//! with their ids and path parameters, tags, security schemes) and handed
//! to `utoipa` only to be rendered as JSON or YAML.

use vstd::prelude::*;
use crate::strings::owned;
use crate::utoipa_render::{
    openapi_json_text, openapi_yaml_text, utoipa_add_api_key_scheme, utoipa_add_operation, utoipa_build_operation,
    utoipa_components, utoipa_contact, utoipa_document, utoipa_info, utoipa_license, utoipa_operation_builder,
    utoipa_paths, utoipa_pretty_json, utoipa_server, utoipa_tag, utoipa_with_path_parameter, utoipa_with_response, utoipa_yaml,
    models, DocumentModel,
    InfoModel, OperationModel, PairModel, PathsModel, Rendered,
};

verus! {

broadcast use vstd::string::group_string_axioms;

/// An HTTP method of a documented operation.
#[derive(Clone, Copy, Debug, PartialEq, Eq, Structural)]
pub enum ApiMethod {
    Get,
    Post,
    Put,
    Delete,
}

/// A documented operation.
#[derive(Debug)]
pub struct ApiOperation {
    pub path: String,
    pub method: ApiMethod,
    pub tag: String,
    pub summary: String,
    pub description: Option<String>,
    /// Status codes with their descriptions.
    pub responses: Vec<(u16, String)>,
    /// The operation's id: the name of the handler that serves it.
    pub operation_id: String,
    /// The parameters taken from the path, each a name and a description;
    /// each is a required string.
    pub parameters: Vec<(String, String)>,
}

/// The document's general information.
#[derive(Debug)]
pub struct ApiInfo {
    pub title: String,
    pub version: String,
    pub description: String,
    pub contact_name: String,
    pub contact_email: String,
    pub license: String,
}

/// A server the API is served from.
#[derive(Debug)]
pub struct ApiServer {
    pub url: String,
    pub description: String,
}

/// A tag grouping operations.
#[derive(Debug)]
pub struct ApiTag {
    pub name: String,
    pub description: String,
}

/// The documented operations.
#[derive(Debug)]
pub struct ApiPaths {
    pub paths: Vec<ApiOperation>,
}

/// Reusable components: security schemes, each a name and the header
/// that carries the API key.
#[derive(Debug)]
pub struct ApiComponents {
    pub security_schemes: Vec<(String, String)>,
}

/// The OpenAPI document.
#[derive(Debug)]
pub struct OpenApiDoc {
    pub info: ApiInfo,
    pub servers: Vec<ApiServer>,
    pub paths: ApiPaths,
    pub components: Option<ApiComponents>,
    pub tags: Vec<ApiTag>,
}

/// The API's documentation.
#[derive(Debug)]
pub struct ApiDoc;

/// Adds the API key security scheme to the document.
#[derive(Debug)]
pub struct SecurityAddon;

/// The responses of an operation as plain values: status codes with
/// their descriptions.
pub open spec fn responses_view(v: Seq<(u16, String)>) -> Seq<(u16, Seq<char>)> {
    v.map_values(|r: (u16, String)| (r.0, r.1@))
}

/// An optional text as plain values.
pub open spec fn text_view(o: Option<String>) -> Option<Seq<char>> {
    match o {
        Some(s) => Some(s@),
        None => None,
    }
}

/// The path parameters of an operation as plain values: names with their
/// descriptions.
pub open spec fn parameters_view(v: Seq<(String, String)>) -> Seq<(Seq<char>, Seq<char>)> {
    v.map_values(|p: (String, String)| (p.0@, p.1@))
}

/// An operation as plain values: path, method, tag, summary, description,
/// responses, operation id and path parameters.
pub type OperationView = (
    Seq<char>,
    ApiMethod,
    Seq<char>,
    Seq<char>,
    Option<Seq<char>>,
    Seq<(u16, Seq<char>)>,
    Seq<char>,
    Seq<(Seq<char>, Seq<char>)>,
);

/// An operation as plain values.
pub open spec fn operation_view(o: ApiOperation) -> OperationView {
    (
        o.path@,
        o.method,
        o.tag@,
        o.summary@,
        text_view(o.description),
        responses_view(o.responses@),
        o.operation_id@,
        parameters_view(o.parameters@),
    )
}

/// The plain views of a list of operations.
pub open spec fn operations_view(v: Seq<ApiOperation>) -> Seq<OperationView> {
    v.map_values(|o: ApiOperation| operation_view(o))
}

/// The plain views of a list of servers.
pub open spec fn servers_view(v: Seq<ApiServer>) -> Seq<(Seq<char>, Seq<char>)> {
    v.map_values(|s: ApiServer| (s.url@, s.description@))
}

/// The plain views of a list of tags.
pub open spec fn tags_view(v: Seq<ApiTag>) -> Seq<(Seq<char>, Seq<char>)> {
    v.map_values(|t: ApiTag| (t.name@, t.description@))
}

/// The plain views of a list of security schemes.
pub open spec fn schemes_view(v: Seq<(String, String)>) -> Seq<(Seq<char>, Seq<char>)> {
    v.map_values(|s: (String, String)| (s.0@, s.1@))
}

/// The servers the API is documented for.
pub open spec fn documented_servers() -> Seq<(Seq<char>, Seq<char>)> {
    seq![
        ("http://localhost:8080"@, "Local development server"@),
        ("https://api.wikify.dev"@, "Production server"@),
    ]
}

/// The tags the operations are grouped by.
pub open spec fn documented_tags() -> Seq<(Seq<char>, Seq<char>)> {
    seq![
        ("Health"@, "Health check endpoints"@),
        ("Authentication"@, "User authentication and authorization"@),
        ("Repository"@, "Repository management operations"@),
        ("Chat"@, "AI chat and query operations"@),
        ("Wiki"@, "Wiki generation and management"@),
        ("Research"@, "Deep research and investigation operations"@),
        ("Session"@, "Session management operations"@),
        ("Configuration"@, "Server configuration operations"@),
    ]
}

fn push_operation(
    v: &mut Vec<ApiOperation>,
    path: &str,
    method: ApiMethod,
    tag: &str,
    summary: &str,
    description: Option<String>,
    responses: Vec<(u16, String)>,
    operation_id: &str,
    parameters: Vec<(String, String)>,
)
    ensures
        operations_view(final(v)@) == operations_view(old(v)@).push(
            (
                path@,
                method,
                tag@,
                summary@,
                text_view(description),
                responses_view(responses@),
                operation_id@,
                parameters_view(parameters@),
            ),
        ),
{
    let ghost before = v@;
    let ghost d = text_view(description);
    let ghost rs = responses_view(responses@);
    let ghost ps = parameters_view(parameters@);
    v.push(
        ApiOperation {
            path: owned(path),
            method,
            tag: owned(tag),
            summary: owned(summary),
            description,
            responses,
            operation_id: owned(operation_id),
            parameters,
        },
    );
    assert(operations_view(v@) =~= operations_view(before).push(
        (path@, method, tag@, summary@, d, rs, operation_id@, ps),
    ));
}

fn push_pair<T>(v: &mut Vec<T>, item: T)
    ensures
        final(v)@ == old(v)@.push(item),
{
    v.push(item);
}

/// The operations the API documents: path, method, tag, summary,
/// description, responses, operation id and path parameters.
pub open spec fn documented_operations() -> Seq<OperationView> {
    seq![
        ("/api/health"@, ApiMethod::Get, "Health"@, "Health check"@, Some("Check the server health status"@), seq![(200u16, "Server is healthy"@)], "health_check"@, Seq::<(Seq<char>, Seq<char>)>::empty()),
        ("/api/repositories"@, ApiMethod::Post, "Repository"@, "Initialize repository"@, Some("Initialize a repository for processing and create a new session. If the repository is already being indexed by another session, an error will be returned."@), seq![(200u16, "Repository initialized successfully"@), (409u16, "Repository is already being indexed by another session"@), (500u16, "Internal server error"@)], "initialize_repository"@, Seq::<(Seq<char>, Seq<char>)>::empty()),
        ("/api/repositories"@, ApiMethod::Get, "Repository"@, "List repositories"@, Some("List all repositories accessible to the current user"@), seq![(200u16, "Repositories listed successfully"@), (500u16, "Internal server error"@)], "list_repositories"@, Seq::<(Seq<char>, Seq<char>)>::empty()),
        ("/api/repositories/{repository_id}"@, ApiMethod::Get, "Repository"@, "Get repository information"@, Some("Get information about a repository"@), seq![(200u16, "Repository information retrieved successfully"@), (404u16, "Repository not found"@)], "get_repository_info"@, seq![("repository_id"@, "Repository ID"@)]),
        ("/api/repositories/{repository_id}"@, ApiMethod::Delete, "Repository"@, "Delete repository"@, Some("Delete a repository and all associated data including sessions, vector data, and database records"@), seq![(200u16, "Repository deleted successfully"@), (404u16, "Repository not found"@), (500u16, "Internal server error"@)], "delete_repository"@, seq![("repository_id"@, "Repository ID to delete"@)]),
        ("/api/repositories/{repository_id}/reindex"@, ApiMethod::Post, "Repository"@, "Reindex repository"@, Some("Reindex an existing repository. If the repository is currently being indexed, returns a conflict error. If already indexed, resets the state and starts reindexing."@), seq![(200u16, "Repository reindexing started successfully"@), (404u16, "Repository not found"@), (409u16, "Repository is currently being indexed"@), (500u16, "Internal server error"@)], "reindex_repository"@, seq![("repository_id"@, "Repository ID to reindex"@)]),
        ("/api/chat"@, ApiMethod::Post, "Chat"@, "Ask a question"@, Some("Ask a question about the repository using RAG (Retrieval-Augmented Generation)"@), seq![(200u16, "Question answered successfully"@)], "chat_query"@, Seq::<(Seq<char>, Seq<char>)>::empty()),
        ("/api/chat/stream"@, ApiMethod::Post, "Chat"@, "Stream chat response"@, Some("Ask a question and receive streaming response (not yet implemented)"@), seq![(200u16, "Streaming response started"@), (501u16, "Not implemented"@)], "chat_stream"@, Seq::<(Seq<char>, Seq<char>)>::empty()),
        ("/api/wiki/generate"@, ApiMethod::Post, "Wiki"@, "Generate wiki documentation"@, Some("Generate comprehensive wiki documentation for a repository"@), seq![(200u16, "Wiki generated successfully"@), (404u16, "Session not found"@), (500u16, "Wiki generation failed"@)], "generate_wiki"@, Seq::<(Seq<char>, Seq<char>)>::empty()),
        ("/api/wiki/{repository_id}"@, ApiMethod::Get, "Wiki"@, "Get generated wiki"@, Some("Retrieve the generated wiki documentation for a repository. No authentication required."@), seq![(200u16, "Wiki retrieved successfully"@), (404u16, "Repository not found"@), (500u16, "Failed to generate wiki"@)], "get_wiki"@, seq![("repository_id"@, "Repository ID"@)]),
        ("/api/wiki/{repository_id}/export"@, ApiMethod::Post, "Wiki"@, "Export wiki"@, Some("Export generated wiki in various formats (not yet implemented)"@), seq![(200u16, "Wiki exported successfully"@), (501u16, "Not implemented"@)], "export_wiki"@, seq![("repository_id"@, "Repository ID"@)]),
        ("/api/config"@, ApiMethod::Get, "Configuration"@, "Get server configuration"@, Some("Get current server configuration"@), seq![(200u16, "Configuration retrieved successfully"@)], "get_config"@, Seq::<(Seq<char>, Seq<char>)>::empty()),
        ("/api/research/start"@, ApiMethod::Post, "Research"@, "Start research session"@, Some("Start a new research session for a repository"@), seq![(200u16, "Research session started successfully"@), (404u16, "Repository not found"@), (500u16, "Failed to start research session"@)], "start_research"@, Seq::<(Seq<char>, Seq<char>)>::empty()),
        ("/api/research/iterate/{repository_id}"@, ApiMethod::Post, "Research"@, "Execute research iteration"@, Some("Execute a single research iteration for a repository"@), seq![(200u16, "Research iteration completed successfully"@), (404u16, "Repository not found"@), (500u16, "Failed to execute research iteration"@)], "research_iteration"@, seq![("repository_id"@, "Repository ID"@)]),
        ("/api/research/progress/{repository_id}"@, ApiMethod::Get, "Research"@, "Get research progress"@, Some("Get the current progress of a research session"@), seq![(200u16, "Research progress retrieved successfully"@), (404u16, "Research session not found"@), (500u16, "Failed to get research progress"@)], "get_research_progress"@, seq![("repository_id"@, "Repository ID"@)]),
        ("/api/research/{research_id}"@, ApiMethod::Get, "Research"@, "Get research progress by ID"@, Some("Get the current progress of a research session by research ID"@), seq![(200u16, "Research progress retrieved successfully"@), (404u16, "Research session not found"@), (500u16, "Failed to get research progress"@)], "get_research_progress_by_id"@, seq![("research_id"@, "Research session ID"@)]),
        ("/api/research/{research_id}/stop"@, ApiMethod::Post, "Research"@, "Stop research session"@, Some("Stop an active research session"@), seq![(200u16, "Research session stopped successfully"@), (404u16, "Research session not found"@), (500u16, "Failed to stop research session"@)], "stop_research"@, seq![("research_id"@, "Research session ID"@)]),
        ("/api/research/templates"@, ApiMethod::Get, "Research"@, "List research templates"@, Some("List all available research templates"@), seq![(200u16, "Research templates listed successfully"@), (500u16, "Failed to list research templates"@)], "list_research_templates"@, Seq::<(Seq<char>, Seq<char>)>::empty()),
        ("/api/research/templates/{template_id}"@, ApiMethod::Get, "Research"@, "Get research template"@, Some("Get a specific research template by ID"@), seq![(200u16, "Research template retrieved successfully"@), (404u16, "Template not found"@), (500u16, "Failed to get research template"@)], "get_research_template"@, seq![("template_id"@, "Template ID"@)]),
        ("/api/research/templates/category/{category}"@, ApiMethod::Get, "Research"@, "List templates by category"@, Some("List research templates filtered by category"@), seq![(200u16, "Research templates listed successfully"@), (500u16, "Failed to list research templates"@)], "list_templates_by_category"@, seq![("category"@, "Template category"@)]),
        ("/api/research/start-from-template"@, ApiMethod::Post, "Research"@, "Start research from template"@, Some("Start a new research session using a predefined template"@), seq![(200u16, "Research session started successfully"@), (404u16, "Repository or template not found"@), (500u16, "Failed to start research session"@)], "start_research_from_template"@, Seq::<(Seq<char>, Seq<char>)>::empty()),
        ("/api/files/tree"@, ApiMethod::Post, "Files"@, "Get file tree for repository"@, None, seq![(200u16, "File tree retrieved successfully"@), (404u16, "Repository not found"@), (500u16, "Internal server error"@)], "get_file_tree"@, Seq::<(Seq<char>, Seq<char>)>::empty()),
        ("/api/files/content"@, ApiMethod::Post, "Files"@, "Get file content"@, None, seq![(200u16, "File content retrieved successfully"@), (404u16, "File not found"@), (500u16, "Internal server error"@)], "get_file_content"@, Seq::<(Seq<char>, Seq<char>)>::empty()),
        ("/api/files/readme"@, ApiMethod::Post, "Files"@, "Get README content for repository"@, None, seq![(200u16, "README content retrieved successfully"@), (404u16, "Repository not found"@), (500u16, "Internal server error"@)], "get_readme"@, Seq::<(Seq<char>, Seq<char>)>::empty()),
        ("/api/repositories"@, ApiMethod::Get, "Repository"@, "Get all repositories"@, Some("Get a list of all repositories (requires SQLite feature)"@), seq![(200u16, "Repositories retrieved successfully"@), (500u16, "Internal server error"@)], "get_repositories"@, Seq::<(Seq<char>, Seq<char>)>::empty()),
        ("/api/history/{repository_id}"@, ApiMethod::Get, "Chat"@, "Get query history"@, Some("Get chat history for a specific repository (requires SQLite feature)"@), seq![(200u16, "Query history retrieved successfully"@), (500u16, "Internal server error"@)], "get_query_history"@, seq![("repository_id"@, "Repository ID"@)]),
    ]
}

/// The documented operations.
fn api_operations() -> (v: Vec<ApiOperation>)
    ensures
        operations_view(v@) == documented_operations(),
{
    let mut v: Vec<ApiOperation> = Vec::new();
    let ghost mut expected: Seq<OperationView> = Seq::empty();
    let mut responses: Vec<(u16, String)> = Vec::new();
    responses.push((200, owned("Server is healthy")));
    assert(responses_view(responses@) =~= seq![(200u16, "Server is healthy"@)]);
    let parameters: Vec<(String, String)> = Vec::new();
    assert(parameters_view(parameters@) =~= Seq::<(Seq<char>, Seq<char>)>::empty());
    push_operation(&mut v, "/api/health", ApiMethod::Get, "Health", "Health check", Some(owned("Check the server health status")), responses, "health_check", parameters);
    proof { expected = expected.push(("/api/health"@, ApiMethod::Get, "Health"@, "Health check"@, Some("Check the server health status"@), seq![(200u16, "Server is healthy"@)], "health_check"@, Seq::<(Seq<char>, Seq<char>)>::empty())); }
    assert(operations_view(v@) =~= expected);
    let mut responses: Vec<(u16, String)> = Vec::new();
    responses.push((200, owned("Repository initialized successfully")));
    responses.push((409, owned("Repository is already being indexed by another session")));
    responses.push((500, owned("Internal server error")));
    assert(responses_view(responses@) =~= seq![(200u16, "Repository initialized successfully"@), (409u16, "Repository is already being indexed by another session"@), (500u16, "Internal server error"@)]);
    let parameters: Vec<(String, String)> = Vec::new();
    assert(parameters_view(parameters@) =~= Seq::<(Seq<char>, Seq<char>)>::empty());
    push_operation(&mut v, "/api/repositories", ApiMethod::Post, "Repository", "Initialize repository", Some(owned("Initialize a repository for processing and create a new session. If the repository is already being indexed by another session, an error will be returned.")), responses, "initialize_repository", parameters);
    proof { expected = expected.push(("/api/repositories"@, ApiMethod::Post, "Repository"@, "Initialize repository"@, Some("Initialize a repository for processing and create a new session. If the repository is already being indexed by another session, an error will be returned."@), seq![(200u16, "Repository initialized successfully"@), (409u16, "Repository is already being indexed by another session"@), (500u16, "Internal server error"@)], "initialize_repository"@, Seq::<(Seq<char>, Seq<char>)>::empty())); }
    assert(operations_view(v@) =~= expected);
    let mut responses: Vec<(u16, String)> = Vec::new();
    responses.push((200, owned("Repositories listed successfully")));
    responses.push((500, owned("Internal server error")));
    assert(responses_view(responses@) =~= seq![(200u16, "Repositories listed successfully"@), (500u16, "Internal server error"@)]);
    let parameters: Vec<(String, String)> = Vec::new();
    assert(parameters_view(parameters@) =~= Seq::<(Seq<char>, Seq<char>)>::empty());
    push_operation(&mut v, "/api/repositories", ApiMethod::Get, "Repository", "List repositories", Some(owned("List all repositories accessible to the current user")), responses, "list_repositories", parameters);
    proof { expected = expected.push(("/api/repositories"@, ApiMethod::Get, "Repository"@, "List repositories"@, Some("List all repositories accessible to the current user"@), seq![(200u16, "Repositories listed successfully"@), (500u16, "Internal server error"@)], "list_repositories"@, Seq::<(Seq<char>, Seq<char>)>::empty())); }
    assert(operations_view(v@) =~= expected);
    let mut responses: Vec<(u16, String)> = Vec::new();
    responses.push((200, owned("Repository information retrieved successfully")));
    responses.push((404, owned("Repository not found")));
    assert(responses_view(responses@) =~= seq![(200u16, "Repository information retrieved successfully"@), (404u16, "Repository not found"@)]);
    let mut parameters: Vec<(String, String)> = Vec::new();
    parameters.push((owned("repository_id"), owned("Repository ID")));
    assert(parameters_view(parameters@) =~= seq![("repository_id"@, "Repository ID"@)]);
    push_operation(&mut v, "/api/repositories/{repository_id}", ApiMethod::Get, "Repository", "Get repository information", Some(owned("Get information about a repository")), responses, "get_repository_info", parameters);
    proof { expected = expected.push(("/api/repositories/{repository_id}"@, ApiMethod::Get, "Repository"@, "Get repository information"@, Some("Get information about a repository"@), seq![(200u16, "Repository information retrieved successfully"@), (404u16, "Repository not found"@)], "get_repository_info"@, seq![("repository_id"@, "Repository ID"@)])); }
    assert(operations_view(v@) =~= expected);
    let mut responses: Vec<(u16, String)> = Vec::new();
    responses.push((200, owned("Repository deleted successfully")));
    responses.push((404, owned("Repository not found")));
    responses.push((500, owned("Internal server error")));
    assert(responses_view(responses@) =~= seq![(200u16, "Repository deleted successfully"@), (404u16, "Repository not found"@), (500u16, "Internal server error"@)]);
    let mut parameters: Vec<(String, String)> = Vec::new();
    parameters.push((owned("repository_id"), owned("Repository ID to delete")));
    assert(parameters_view(parameters@) =~= seq![("repository_id"@, "Repository ID to delete"@)]);
    push_operation(&mut v, "/api/repositories/{repository_id}", ApiMethod::Delete, "Repository", "Delete repository", Some(owned("Delete a repository and all associated data including sessions, vector data, and database records")), responses, "delete_repository", parameters);
    proof { expected = expected.push(("/api/repositories/{repository_id}"@, ApiMethod::Delete, "Repository"@, "Delete repository"@, Some("Delete a repository and all associated data including sessions, vector data, and database records"@), seq![(200u16, "Repository deleted successfully"@), (404u16, "Repository not found"@), (500u16, "Internal server error"@)], "delete_repository"@, seq![("repository_id"@, "Repository ID to delete"@)])); }
    assert(operations_view(v@) =~= expected);
    let mut responses: Vec<(u16, String)> = Vec::new();
    responses.push((200, owned("Repository reindexing started successfully")));
    responses.push((404, owned("Repository not found")));
    responses.push((409, owned("Repository is currently being indexed")));
    responses.push((500, owned("Internal server error")));
    assert(responses_view(responses@) =~= seq![(200u16, "Repository reindexing started successfully"@), (404u16, "Repository not found"@), (409u16, "Repository is currently being indexed"@), (500u16, "Internal server error"@)]);
    let mut parameters: Vec<(String, String)> = Vec::new();
    parameters.push((owned("repository_id"), owned("Repository ID to reindex")));
    assert(parameters_view(parameters@) =~= seq![("repository_id"@, "Repository ID to reindex"@)]);
    push_operation(&mut v, "/api/repositories/{repository_id}/reindex", ApiMethod::Post, "Repository", "Reindex repository", Some(owned("Reindex an existing repository. If the repository is currently being indexed, returns a conflict error. If already indexed, resets the state and starts reindexing.")), responses, "reindex_repository", parameters);
    proof { expected = expected.push(("/api/repositories/{repository_id}/reindex"@, ApiMethod::Post, "Repository"@, "Reindex repository"@, Some("Reindex an existing repository. If the repository is currently being indexed, returns a conflict error. If already indexed, resets the state and starts reindexing."@), seq![(200u16, "Repository reindexing started successfully"@), (404u16, "Repository not found"@), (409u16, "Repository is currently being indexed"@), (500u16, "Internal server error"@)], "reindex_repository"@, seq![("repository_id"@, "Repository ID to reindex"@)])); }
    assert(operations_view(v@) =~= expected);
    let mut responses: Vec<(u16, String)> = Vec::new();
    responses.push((200, owned("Question answered successfully")));
    assert(responses_view(responses@) =~= seq![(200u16, "Question answered successfully"@)]);
    let parameters: Vec<(String, String)> = Vec::new();
    assert(parameters_view(parameters@) =~= Seq::<(Seq<char>, Seq<char>)>::empty());
    push_operation(&mut v, "/api/chat", ApiMethod::Post, "Chat", "Ask a question", Some(owned("Ask a question about the repository using RAG (Retrieval-Augmented Generation)")), responses, "chat_query", parameters);
    proof { expected = expected.push(("/api/chat"@, ApiMethod::Post, "Chat"@, "Ask a question"@, Some("Ask a question about the repository using RAG (Retrieval-Augmented Generation)"@), seq![(200u16, "Question answered successfully"@)], "chat_query"@, Seq::<(Seq<char>, Seq<char>)>::empty())); }
    assert(operations_view(v@) =~= expected);
    let mut responses: Vec<(u16, String)> = Vec::new();
    responses.push((200, owned("Streaming response started")));
    responses.push((501, owned("Not implemented")));
    assert(responses_view(responses@) =~= seq![(200u16, "Streaming response started"@), (501u16, "Not implemented"@)]);
    let parameters: Vec<(String, String)> = Vec::new();
    assert(parameters_view(parameters@) =~= Seq::<(Seq<char>, Seq<char>)>::empty());
    push_operation(&mut v, "/api/chat/stream", ApiMethod::Post, "Chat", "Stream chat response", Some(owned("Ask a question and receive streaming response (not yet implemented)")), responses, "chat_stream", parameters);
    proof { expected = expected.push(("/api/chat/stream"@, ApiMethod::Post, "Chat"@, "Stream chat response"@, Some("Ask a question and receive streaming response (not yet implemented)"@), seq![(200u16, "Streaming response started"@), (501u16, "Not implemented"@)], "chat_stream"@, Seq::<(Seq<char>, Seq<char>)>::empty())); }
    assert(operations_view(v@) =~= expected);
    let mut responses: Vec<(u16, String)> = Vec::new();
    responses.push((200, owned("Wiki generated successfully")));
    responses.push((404, owned("Session not found")));
    responses.push((500, owned("Wiki generation failed")));
    assert(responses_view(responses@) =~= seq![(200u16, "Wiki generated successfully"@), (404u16, "Session not found"@), (500u16, "Wiki generation failed"@)]);
    let parameters: Vec<(String, String)> = Vec::new();
    assert(parameters_view(parameters@) =~= Seq::<(Seq<char>, Seq<char>)>::empty());
    push_operation(&mut v, "/api/wiki/generate", ApiMethod::Post, "Wiki", "Generate wiki documentation", Some(owned("Generate comprehensive wiki documentation for a repository")), responses, "generate_wiki", parameters);
    proof { expected = expected.push(("/api/wiki/generate"@, ApiMethod::Post, "Wiki"@, "Generate wiki documentation"@, Some("Generate comprehensive wiki documentation for a repository"@), seq![(200u16, "Wiki generated successfully"@), (404u16, "Session not found"@), (500u16, "Wiki generation failed"@)], "generate_wiki"@, Seq::<(Seq<char>, Seq<char>)>::empty())); }
    assert(operations_view(v@) =~= expected);
    let mut responses: Vec<(u16, String)> = Vec::new();
    responses.push((200, owned("Wiki retrieved successfully")));
    responses.push((404, owned("Repository not found")));
    responses.push((500, owned("Failed to generate wiki")));
    assert(responses_view(responses@) =~= seq![(200u16, "Wiki retrieved successfully"@), (404u16, "Repository not found"@), (500u16, "Failed to generate wiki"@)]);
    let mut parameters: Vec<(String, String)> = Vec::new();
    parameters.push((owned("repository_id"), owned("Repository ID")));
    assert(parameters_view(parameters@) =~= seq![("repository_id"@, "Repository ID"@)]);
    push_operation(&mut v, "/api/wiki/{repository_id}", ApiMethod::Get, "Wiki", "Get generated wiki", Some(owned("Retrieve the generated wiki documentation for a repository. No authentication required.")), responses, "get_wiki", parameters);
    proof { expected = expected.push(("/api/wiki/{repository_id}"@, ApiMethod::Get, "Wiki"@, "Get generated wiki"@, Some("Retrieve the generated wiki documentation for a repository. No authentication required."@), seq![(200u16, "Wiki retrieved successfully"@), (404u16, "Repository not found"@), (500u16, "Failed to generate wiki"@)], "get_wiki"@, seq![("repository_id"@, "Repository ID"@)])); }
    assert(operations_view(v@) =~= expected);
    let mut responses: Vec<(u16, String)> = Vec::new();
    responses.push((200, owned("Wiki exported successfully")));
    responses.push((501, owned("Not implemented")));
    assert(responses_view(responses@) =~= seq![(200u16, "Wiki exported successfully"@), (501u16, "Not implemented"@)]);
    let mut parameters: Vec<(String, String)> = Vec::new();
    parameters.push((owned("repository_id"), owned("Repository ID")));
    assert(parameters_view(parameters@) =~= seq![("repository_id"@, "Repository ID"@)]);
    push_operation(&mut v, "/api/wiki/{repository_id}/export", ApiMethod::Post, "Wiki", "Export wiki", Some(owned("Export generated wiki in various formats (not yet implemented)")), responses, "export_wiki", parameters);
    proof { expected = expected.push(("/api/wiki/{repository_id}/export"@, ApiMethod::Post, "Wiki"@, "Export wiki"@, Some("Export generated wiki in various formats (not yet implemented)"@), seq![(200u16, "Wiki exported successfully"@), (501u16, "Not implemented"@)], "export_wiki"@, seq![("repository_id"@, "Repository ID"@)])); }
    assert(operations_view(v@) =~= expected);
    let mut responses: Vec<(u16, String)> = Vec::new();
    responses.push((200, owned("Configuration retrieved successfully")));
    assert(responses_view(responses@) =~= seq![(200u16, "Configuration retrieved successfully"@)]);
    let parameters: Vec<(String, String)> = Vec::new();
    assert(parameters_view(parameters@) =~= Seq::<(Seq<char>, Seq<char>)>::empty());
    push_operation(&mut v, "/api/config", ApiMethod::Get, "Configuration", "Get server configuration", Some(owned("Get current server configuration")), responses, "get_config", parameters);
    proof { expected = expected.push(("/api/config"@, ApiMethod::Get, "Configuration"@, "Get server configuration"@, Some("Get current server configuration"@), seq![(200u16, "Configuration retrieved successfully"@)], "get_config"@, Seq::<(Seq<char>, Seq<char>)>::empty())); }
    assert(operations_view(v@) =~= expected);
    let mut responses: Vec<(u16, String)> = Vec::new();
    responses.push((200, owned("Research session started successfully")));
    responses.push((404, owned("Repository not found")));
    responses.push((500, owned("Failed to start research session")));
    assert(responses_view(responses@) =~= seq![(200u16, "Research session started successfully"@), (404u16, "Repository not found"@), (500u16, "Failed to start research session"@)]);
    let parameters: Vec<(String, String)> = Vec::new();
    assert(parameters_view(parameters@) =~= Seq::<(Seq<char>, Seq<char>)>::empty());
    push_operation(&mut v, "/api/research/start", ApiMethod::Post, "Research", "Start research session", Some(owned("Start a new research session for a repository")), responses, "start_research", parameters);
    proof { expected = expected.push(("/api/research/start"@, ApiMethod::Post, "Research"@, "Start research session"@, Some("Start a new research session for a repository"@), seq![(200u16, "Research session started successfully"@), (404u16, "Repository not found"@), (500u16, "Failed to start research session"@)], "start_research"@, Seq::<(Seq<char>, Seq<char>)>::empty())); }
    assert(operations_view(v@) =~= expected);
    let mut responses: Vec<(u16, String)> = Vec::new();
    responses.push((200, owned("Research iteration completed successfully")));
    responses.push((404, owned("Repository not found")));
    responses.push((500, owned("Failed to execute research iteration")));
    assert(responses_view(responses@) =~= seq![(200u16, "Research iteration completed successfully"@), (404u16, "Repository not found"@), (500u16, "Failed to execute research iteration"@)]);
    let mut parameters: Vec<(String, String)> = Vec::new();
    parameters.push((owned("repository_id"), owned("Repository ID")));
    assert(parameters_view(parameters@) =~= seq![("repository_id"@, "Repository ID"@)]);
    push_operation(&mut v, "/api/research/iterate/{repository_id}", ApiMethod::Post, "Research", "Execute research iteration", Some(owned("Execute a single research iteration for a repository")), responses, "research_iteration", parameters);
    proof { expected = expected.push(("/api/research/iterate/{repository_id}"@, ApiMethod::Post, "Research"@, "Execute research iteration"@, Some("Execute a single research iteration for a repository"@), seq![(200u16, "Research iteration completed successfully"@), (404u16, "Repository not found"@), (500u16, "Failed to execute research iteration"@)], "research_iteration"@, seq![("repository_id"@, "Repository ID"@)])); }
    assert(operations_view(v@) =~= expected);
    let mut responses: Vec<(u16, String)> = Vec::new();
    responses.push((200, owned("Research progress retrieved successfully")));
    responses.push((404, owned("Research session not found")));
    responses.push((500, owned("Failed to get research progress")));
    assert(responses_view(responses@) =~= seq![(200u16, "Research progress retrieved successfully"@), (404u16, "Research session not found"@), (500u16, "Failed to get research progress"@)]);
    let mut parameters: Vec<(String, String)> = Vec::new();
    parameters.push((owned("repository_id"), owned("Repository ID")));
    assert(parameters_view(parameters@) =~= seq![("repository_id"@, "Repository ID"@)]);
    push_operation(&mut v, "/api/research/progress/{repository_id}", ApiMethod::Get, "Research", "Get research progress", Some(owned("Get the current progress of a research session")), responses, "get_research_progress", parameters);
    proof { expected = expected.push(("/api/research/progress/{repository_id}"@, ApiMethod::Get, "Research"@, "Get research progress"@, Some("Get the current progress of a research session"@), seq![(200u16, "Research progress retrieved successfully"@), (404u16, "Research session not found"@), (500u16, "Failed to get research progress"@)], "get_research_progress"@, seq![("repository_id"@, "Repository ID"@)])); }
    assert(operations_view(v@) =~= expected);
    let mut responses: Vec<(u16, String)> = Vec::new();
    responses.push((200, owned("Research progress retrieved successfully")));
    responses.push((404, owned("Research session not found")));
    responses.push((500, owned("Failed to get research progress")));
    assert(responses_view(responses@) =~= seq![(200u16, "Research progress retrieved successfully"@), (404u16, "Research session not found"@), (500u16, "Failed to get research progress"@)]);
    let mut parameters: Vec<(String, String)> = Vec::new();
    parameters.push((owned("research_id"), owned("Research session ID")));
    assert(parameters_view(parameters@) =~= seq![("research_id"@, "Research session ID"@)]);
    push_operation(&mut v, "/api/research/{research_id}", ApiMethod::Get, "Research", "Get research progress by ID", Some(owned("Get the current progress of a research session by research ID")), responses, "get_research_progress_by_id", parameters);
    proof { expected = expected.push(("/api/research/{research_id}"@, ApiMethod::Get, "Research"@, "Get research progress by ID"@, Some("Get the current progress of a research session by research ID"@), seq![(200u16, "Research progress retrieved successfully"@), (404u16, "Research session not found"@), (500u16, "Failed to get research progress"@)], "get_research_progress_by_id"@, seq![("research_id"@, "Research session ID"@)])); }
    assert(operations_view(v@) =~= expected);
    let mut responses: Vec<(u16, String)> = Vec::new();
    responses.push((200, owned("Research session stopped successfully")));
    responses.push((404, owned("Research session not found")));
    responses.push((500, owned("Failed to stop research session")));
    assert(responses_view(responses@) =~= seq![(200u16, "Research session stopped successfully"@), (404u16, "Research session not found"@), (500u16, "Failed to stop research session"@)]);
    let mut parameters: Vec<(String, String)> = Vec::new();
    parameters.push((owned("research_id"), owned("Research session ID")));
    assert(parameters_view(parameters@) =~= seq![("research_id"@, "Research session ID"@)]);
    push_operation(&mut v, "/api/research/{research_id}/stop", ApiMethod::Post, "Research", "Stop research session", Some(owned("Stop an active research session")), responses, "stop_research", parameters);
    proof { expected = expected.push(("/api/research/{research_id}/stop"@, ApiMethod::Post, "Research"@, "Stop research session"@, Some("Stop an active research session"@), seq![(200u16, "Research session stopped successfully"@), (404u16, "Research session not found"@), (500u16, "Failed to stop research session"@)], "stop_research"@, seq![("research_id"@, "Research session ID"@)])); }
    assert(operations_view(v@) =~= expected);
    let mut responses: Vec<(u16, String)> = Vec::new();
    responses.push((200, owned("Research templates listed successfully")));
    responses.push((500, owned("Failed to list research templates")));
    assert(responses_view(responses@) =~= seq![(200u16, "Research templates listed successfully"@), (500u16, "Failed to list research templates"@)]);
    let parameters: Vec<(String, String)> = Vec::new();
    assert(parameters_view(parameters@) =~= Seq::<(Seq<char>, Seq<char>)>::empty());
    push_operation(&mut v, "/api/research/templates", ApiMethod::Get, "Research", "List research templates", Some(owned("List all available research templates")), responses, "list_research_templates", parameters);
    proof { expected = expected.push(("/api/research/templates"@, ApiMethod::Get, "Research"@, "List research templates"@, Some("List all available research templates"@), seq![(200u16, "Research templates listed successfully"@), (500u16, "Failed to list research templates"@)], "list_research_templates"@, Seq::<(Seq<char>, Seq<char>)>::empty())); }
    assert(operations_view(v@) =~= expected);
    let mut responses: Vec<(u16, String)> = Vec::new();
    responses.push((200, owned("Research template retrieved successfully")));
    responses.push((404, owned("Template not found")));
    responses.push((500, owned("Failed to get research template")));
    assert(responses_view(responses@) =~= seq![(200u16, "Research template retrieved successfully"@), (404u16, "Template not found"@), (500u16, "Failed to get research template"@)]);
    let mut parameters: Vec<(String, String)> = Vec::new();
    parameters.push((owned("template_id"), owned("Template ID")));
    assert(parameters_view(parameters@) =~= seq![("template_id"@, "Template ID"@)]);
    push_operation(&mut v, "/api/research/templates/{template_id}", ApiMethod::Get, "Research", "Get research template", Some(owned("Get a specific research template by ID")), responses, "get_research_template", parameters);
    proof { expected = expected.push(("/api/research/templates/{template_id}"@, ApiMethod::Get, "Research"@, "Get research template"@, Some("Get a specific research template by ID"@), seq![(200u16, "Research template retrieved successfully"@), (404u16, "Template not found"@), (500u16, "Failed to get research template"@)], "get_research_template"@, seq![("template_id"@, "Template ID"@)])); }
    assert(operations_view(v@) =~= expected);
    let mut responses: Vec<(u16, String)> = Vec::new();
    responses.push((200, owned("Research templates listed successfully")));
    responses.push((500, owned("Failed to list research templates")));
    assert(responses_view(responses@) =~= seq![(200u16, "Research templates listed successfully"@), (500u16, "Failed to list research templates"@)]);
    let mut parameters: Vec<(String, String)> = Vec::new();
    parameters.push((owned("category"), owned("Template category")));
    assert(parameters_view(parameters@) =~= seq![("category"@, "Template category"@)]);
    push_operation(&mut v, "/api/research/templates/category/{category}", ApiMethod::Get, "Research", "List templates by category", Some(owned("List research templates filtered by category")), responses, "list_templates_by_category", parameters);
    proof { expected = expected.push(("/api/research/templates/category/{category}"@, ApiMethod::Get, "Research"@, "List templates by category"@, Some("List research templates filtered by category"@), seq![(200u16, "Research templates listed successfully"@), (500u16, "Failed to list research templates"@)], "list_templates_by_category"@, seq![("category"@, "Template category"@)])); }
    assert(operations_view(v@) =~= expected);
    let mut responses: Vec<(u16, String)> = Vec::new();
    responses.push((200, owned("Research session started successfully")));
    responses.push((404, owned("Repository or template not found")));
    responses.push((500, owned("Failed to start research session")));
    assert(responses_view(responses@) =~= seq![(200u16, "Research session started successfully"@), (404u16, "Repository or template not found"@), (500u16, "Failed to start research session"@)]);
    let parameters: Vec<(String, String)> = Vec::new();
    assert(parameters_view(parameters@) =~= Seq::<(Seq<char>, Seq<char>)>::empty());
    push_operation(&mut v, "/api/research/start-from-template", ApiMethod::Post, "Research", "Start research from template", Some(owned("Start a new research session using a predefined template")), responses, "start_research_from_template", parameters);
    proof { expected = expected.push(("/api/research/start-from-template"@, ApiMethod::Post, "Research"@, "Start research from template"@, Some("Start a new research session using a predefined template"@), seq![(200u16, "Research session started successfully"@), (404u16, "Repository or template not found"@), (500u16, "Failed to start research session"@)], "start_research_from_template"@, Seq::<(Seq<char>, Seq<char>)>::empty())); }
    assert(operations_view(v@) =~= expected);
    let mut responses: Vec<(u16, String)> = Vec::new();
    responses.push((200, owned("File tree retrieved successfully")));
    responses.push((404, owned("Repository not found")));
    responses.push((500, owned("Internal server error")));
    assert(responses_view(responses@) =~= seq![(200u16, "File tree retrieved successfully"@), (404u16, "Repository not found"@), (500u16, "Internal server error"@)]);
    let parameters: Vec<(String, String)> = Vec::new();
    assert(parameters_view(parameters@) =~= Seq::<(Seq<char>, Seq<char>)>::empty());
    push_operation(&mut v, "/api/files/tree", ApiMethod::Post, "Files", "Get file tree for repository", None, responses, "get_file_tree", parameters);
    proof { expected = expected.push(("/api/files/tree"@, ApiMethod::Post, "Files"@, "Get file tree for repository"@, None, seq![(200u16, "File tree retrieved successfully"@), (404u16, "Repository not found"@), (500u16, "Internal server error"@)], "get_file_tree"@, Seq::<(Seq<char>, Seq<char>)>::empty())); }
    assert(operations_view(v@) =~= expected);
    let mut responses: Vec<(u16, String)> = Vec::new();
    responses.push((200, owned("File content retrieved successfully")));
    responses.push((404, owned("File not found")));
    responses.push((500, owned("Internal server error")));
    assert(responses_view(responses@) =~= seq![(200u16, "File content retrieved successfully"@), (404u16, "File not found"@), (500u16, "Internal server error"@)]);
    let parameters: Vec<(String, String)> = Vec::new();
    assert(parameters_view(parameters@) =~= Seq::<(Seq<char>, Seq<char>)>::empty());
    push_operation(&mut v, "/api/files/content", ApiMethod::Post, "Files", "Get file content", None, responses, "get_file_content", parameters);
    proof { expected = expected.push(("/api/files/content"@, ApiMethod::Post, "Files"@, "Get file content"@, None, seq![(200u16, "File content retrieved successfully"@), (404u16, "File not found"@), (500u16, "Internal server error"@)], "get_file_content"@, Seq::<(Seq<char>, Seq<char>)>::empty())); }
    assert(operations_view(v@) =~= expected);
    let mut responses: Vec<(u16, String)> = Vec::new();
    responses.push((200, owned("README content retrieved successfully")));
    responses.push((404, owned("Repository not found")));
    responses.push((500, owned("Internal server error")));
    assert(responses_view(responses@) =~= seq![(200u16, "README content retrieved successfully"@), (404u16, "Repository not found"@), (500u16, "Internal server error"@)]);
    let parameters: Vec<(String, String)> = Vec::new();
    assert(parameters_view(parameters@) =~= Seq::<(Seq<char>, Seq<char>)>::empty());
    push_operation(&mut v, "/api/files/readme", ApiMethod::Post, "Files", "Get README content for repository", None, responses, "get_readme", parameters);
    proof { expected = expected.push(("/api/files/readme"@, ApiMethod::Post, "Files"@, "Get README content for repository"@, None, seq![(200u16, "README content retrieved successfully"@), (404u16, "Repository not found"@), (500u16, "Internal server error"@)], "get_readme"@, Seq::<(Seq<char>, Seq<char>)>::empty())); }
    assert(operations_view(v@) =~= expected);
    let mut responses: Vec<(u16, String)> = Vec::new();
    responses.push((200, owned("Repositories retrieved successfully")));
    responses.push((500, owned("Internal server error")));
    assert(responses_view(responses@) =~= seq![(200u16, "Repositories retrieved successfully"@), (500u16, "Internal server error"@)]);
    let parameters: Vec<(String, String)> = Vec::new();
    assert(parameters_view(parameters@) =~= Seq::<(Seq<char>, Seq<char>)>::empty());
    push_operation(&mut v, "/api/repositories", ApiMethod::Get, "Repository", "Get all repositories", Some(owned("Get a list of all repositories (requires SQLite feature)")), responses, "get_repositories", parameters);
    proof { expected = expected.push(("/api/repositories"@, ApiMethod::Get, "Repository"@, "Get all repositories"@, Some("Get a list of all repositories (requires SQLite feature)"@), seq![(200u16, "Repositories retrieved successfully"@), (500u16, "Internal server error"@)], "get_repositories"@, Seq::<(Seq<char>, Seq<char>)>::empty())); }
    assert(operations_view(v@) =~= expected);
    let mut responses: Vec<(u16, String)> = Vec::new();
    responses.push((200, owned("Query history retrieved successfully")));
    responses.push((500, owned("Internal server error")));
    assert(responses_view(responses@) =~= seq![(200u16, "Query history retrieved successfully"@), (500u16, "Internal server error"@)]);
    let mut parameters: Vec<(String, String)> = Vec::new();
    parameters.push((owned("repository_id"), owned("Repository ID")));
    assert(parameters_view(parameters@) =~= seq![("repository_id"@, "Repository ID"@)]);
    push_operation(&mut v, "/api/history/{repository_id}", ApiMethod::Get, "Chat", "Get query history", Some(owned("Get chat history for a specific repository (requires SQLite feature)")), responses, "get_query_history", parameters);
    proof { expected = expected.push(("/api/history/{repository_id}"@, ApiMethod::Get, "Chat"@, "Get query history"@, Some("Get chat history for a specific repository (requires SQLite feature)"@), seq![(200u16, "Query history retrieved successfully"@), (500u16, "Internal server error"@)], "get_query_history"@, seq![("repository_id"@, "Repository ID"@)])); }
    assert(operations_view(v@) =~= expected);
    assert(expected =~= documented_operations());
    v
}

/// The servers the API is documented for.
fn api_servers() -> (v: Vec<ApiServer>)
    ensures
        servers_view(v@) == documented_servers(),
{
    let mut v: Vec<ApiServer> = Vec::new();
    push_pair(
        &mut v,
        ApiServer {
            url: owned("http://localhost:8080"),
            description: owned("Local development server"),
        },
    );
    push_pair(
        &mut v,
        ApiServer { url: owned("https://api.wikify.dev"), description: owned("Production server") },
    );
    assert(servers_view(v@) =~= documented_servers());
    v
}

fn tag(name: &str, description: &str) -> (t: ApiTag)
    ensures
        t.name@ == name@,
        t.description@ == description@,
{
    ApiTag { name: owned(name), description: owned(description) }
}

/// The tags the operations are grouped by.
fn api_tags() -> (v: Vec<ApiTag>)
    ensures
        tags_view(v@) == documented_tags(),
{
    let mut v: Vec<ApiTag> = Vec::new();
    push_pair(&mut v, tag("Health", "Health check endpoints"));
    push_pair(&mut v, tag("Authentication", "User authentication and authorization"));
    push_pair(&mut v, tag("Repository", "Repository management operations"));
    push_pair(&mut v, tag("Chat", "AI chat and query operations"));
    push_pair(&mut v, tag("Wiki", "Wiki generation and management"));
    push_pair(&mut v, tag("Research", "Deep research and investigation operations"));
    push_pair(&mut v, tag("Session", "Session management operations"));
    push_pair(&mut v, tag("Configuration", "Server configuration operations"));
    assert(tags_view(v@) =~= documented_tags());
    v
}

impl SecurityAddon {
    /// Adds the API key scheme `api_key`, carried in the `X-API-Key`
    /// header, to a document that has components.
    pub fn modify(&self, openapi: &mut OpenApiDoc)
        ensures
            final(openapi).info == old(openapi).info,
            final(openapi).servers == old(openapi).servers,
            final(openapi).paths == old(openapi).paths,
            final(openapi).tags == old(openapi).tags,
            match old(openapi).components {
                Some(c) => final(openapi).components matches Some(d) && schemes_view(
                    d.security_schemes@,
                ) == schemes_view(c.security_schemes@).push(("api_key"@, "X-API-Key"@)),
                None => final(openapi).components is None,
            },
    {
        match &mut openapi.components {
            Some(components) => {
                let ghost before = components.security_schemes@;
                components.security_schemes.push((owned("api_key"), owned("X-API-Key")));
                assert(schemes_view(components.security_schemes@) =~= schemes_view(before).push(
                    ("api_key"@, "X-API-Key"@),
                ));
            },
            None => {},
        }
    }
}

impl ApiDoc {
    /// The API's OpenAPI document: the title `Wikify Web API`, version
    /// `0.1.0`, the local and production servers, the documented
    /// operations, the tags, and the API key security scheme.
    pub fn openapi() -> (doc: OpenApiDoc)
        ensures
            doc.info.title@ == "Wikify Web API"@,
            doc.info.version@ == "0.1.0"@,
            doc.info.description@ == "AI-powered repository documentation and chat system"@,
            doc.info.contact_name@ == "Wikify Team"@,
            doc.info.contact_email@ == "support@wikify.dev"@,
            doc.info.license@ == "MIT OR Apache-2.0"@,
            servers_view(doc.servers@) == documented_servers(),
            operations_view(doc.paths.paths@) == documented_operations(),
            tags_view(doc.tags@) == documented_tags(),
            doc.components matches Some(c) && schemes_view(c.security_schemes@) == seq![
                ("api_key"@, "X-API-Key"@),
            ],
    {
        let mut doc = OpenApiDoc {
            info: ApiInfo {
                title: owned("Wikify Web API"),
                version: owned("0.1.0"),
                description: owned("AI-powered repository documentation and chat system"),
                contact_name: owned("Wikify Team"),
                contact_email: owned("support@wikify.dev"),
                license: owned("MIT OR Apache-2.0"),
            },
            servers: api_servers(),
            paths: ApiPaths { paths: api_operations() },
            components: Some(ApiComponents { security_schemes: Vec::new() }),
            tags: api_tags(),
        };
        assert(schemes_view(Seq::<(String, String)>::empty()) =~= Seq::<(Seq<char>, Seq<char>)>::empty());
        let addon = SecurityAddon;
        addon.modify(&mut doc);
        assert(seq![("api_key"@, "X-API-Key"@)] =~= Seq::<(Seq<char>, Seq<char>)>::empty().push(
            ("api_key"@, "X-API-Key"@),
        ));
        doc
    }
}

// ---------------------------------------------------------------------
// Rendering through utoipa
// ---------------------------------------------------------------------

/// The document information as plain values.
pub open spec fn info_model(i: ApiInfo) -> InfoModel {
    (i.title@, i.version@, i.description@, (i.contact_name@, i.contact_email@), i.license@)
}

/// An operation as `utoipa` receives it: path, method, and the rest.
pub open spec fn path_entry(
    e: OperationView,
) -> (Seq<char>, ApiMethod, OperationModel) {
    (e.0, e.1, (e.2, e.3, e.4, e.5, e.6, e.7))
}

/// The operations as `utoipa` receives them.
pub open spec fn paths_model(
    v: Seq<OperationView>,
) -> PathsModel {
    v.map_values(|e: OperationView| path_entry(e))
}

/// A document as plain values.
pub open spec fn doc_model(doc: OpenApiDoc) -> DocumentModel {
    (
        info_model(doc.info),
        servers_view(doc.servers@),
        paths_model(operations_view(doc.paths.paths@)),
        match doc.components {
            Some(c) => Some(schemes_view(c.security_schemes@)),
            None => None,
        },
        tags_view(doc.tags@),
    )
}

/// The API's document (the one `ApiDoc::openapi` makes) as plain values.
pub open spec fn api_doc_model() -> DocumentModel {
    (
        (
            "Wikify Web API"@,
            "0.1.0"@,
            "AI-powered repository documentation and chat system"@,
            ("Wikify Team"@, "support@wikify.dev"@),
            "MIT OR Apache-2.0"@,
        ),
        documented_servers(),
        paths_model(documented_operations()),
        Some(seq![("api_key"@, "X-API-Key"@)]),
        documented_tags(),
    )
}

/// The document in `utoipa`'s form, built from exactly its values.
pub fn to_utoipa(doc: &OpenApiDoc) -> (r: Rendered<utoipa::openapi::OpenApi, DocumentModel>)
    ensures
        r.model() == doc_model(*doc),
{
    let contact = utoipa_contact(&doc.info.contact_name, &doc.info.contact_email);
    let license = utoipa_license(&doc.info.license);
    let info = utoipa_info(&doc.info, contact, license);
    let mut servers: Vec<Rendered<utoipa::openapi::Server, PairModel>> = Vec::new();
    let mut i: usize = 0;
    while i < doc.servers.len()
        invariant
            i <= doc.servers@.len(),
            models(servers@) == servers_view(doc.servers@).take(i as int),
        decreases doc.servers@.len() - i,
    {
        let ghost before = servers@;
        let srv = utoipa_server(&doc.servers[i]);
        assert(models(before).len() == before.len());
        servers.push(srv);
        assert(servers@ == before.push(srv));
        assert forall|x: int| 0 <= x < i + 1 implies #[trigger] models(servers@)[x] == servers_view(
            doc.servers@,
        )[x] by {
            if x < i {
                assert(servers@[x] == before[x]);
                assert(models(before)[x] == servers_view(doc.servers@).take(i as int)[x]);
            } else {
                assert(servers@[x] == srv);
                assert(servers_view(doc.servers@)[x] == (doc.servers@[x].url@, doc.servers@[x].description@));
            }
        }
        assert(models(servers@) =~= servers_view(doc.servers@).take(i + 1));
        i = i + 1;
    }
    let mut paths = utoipa_paths();
    let ghost all = paths_model(operations_view(doc.paths.paths@));
    let mut j: usize = 0;
    while j < doc.paths.paths.len()
        invariant
            j <= doc.paths.paths@.len(),
            all == paths_model(operations_view(doc.paths.paths@)),
            paths.model() == all.take(j as int),
        decreases doc.paths.paths@.len() - j,
    {
        let op = &doc.paths.paths[j];
        let mut builder = utoipa_operation_builder(op);
        let mut r: usize = 0;
        while r < op.responses.len()
            invariant
                r <= op.responses@.len(),
                builder.model() == (
                    op.tag@,
                    op.summary@,
                    text_view(op.description),
                    responses_view(op.responses@).take(r as int),
                    op.operation_id@,
                    Seq::<(Seq<char>, Seq<char>)>::empty(),
                ),
            decreases op.responses@.len() - r,
        {
            builder = utoipa_with_response(builder, op.responses[r].0, &op.responses[r].1);
            assert(responses_view(op.responses@).take(r + 1) =~= responses_view(op.responses@).take(
                r as int,
            ).push((op.responses@[r as int].0, op.responses@[r as int].1@)));
            r = r + 1;
        }
        assert(responses_view(op.responses@).take(r as int) =~= responses_view(op.responses@));
        let mut q: usize = 0;
        while q < op.parameters.len()
            invariant
                q <= op.parameters@.len(),
                builder.model() == (
                    op.tag@,
                    op.summary@,
                    text_view(op.description),
                    responses_view(op.responses@),
                    op.operation_id@,
                    parameters_view(op.parameters@).take(q as int),
                ),
            decreases op.parameters@.len() - q,
        {
            builder = utoipa_with_path_parameter(builder, &op.parameters[q].0, &op.parameters[q].1);
            assert(parameters_view(op.parameters@).take(q + 1) =~= parameters_view(op.parameters@).take(
                q as int,
            ).push((op.parameters@[q as int].0@, op.parameters@[q as int].1@)));
            q = q + 1;
        }
        assert(parameters_view(op.parameters@).take(q as int) =~= parameters_view(op.parameters@));
        let ghost before = paths.model();
        utoipa_add_operation(&mut paths, op.path.as_str(), op.method, utoipa_build_operation(builder));
        assert(all[j as int] == path_entry(operation_view(*op)));
        assert(paths.model() =~= all.take(j + 1));
        j = j + 1;
    }
    assert(paths.model() =~= all);
    let components = match &doc.components {
        Some(c) => {
            let mut components = utoipa_components();
            let mut k: usize = 0;
            while k < c.security_schemes.len()
                invariant
                    k <= c.security_schemes@.len(),
                    components.model() == schemes_view(c.security_schemes@).take(k as int),
                decreases c.security_schemes@.len() - k,
            {
                utoipa_add_api_key_scheme(&mut components, &c.security_schemes[k].0, &c.security_schemes[k].1);
                assert(components.model() =~= schemes_view(c.security_schemes@).take(k + 1));
                k = k + 1;
            }
            assert(components.model() =~= schemes_view(c.security_schemes@));
            Some(components)
        },
        None => None,
    };
    let mut tags: Vec<Rendered<utoipa::openapi::Tag, PairModel>> = Vec::new();
    let mut k: usize = 0;
    while k < doc.tags.len()
        invariant
            k <= doc.tags@.len(),
            models(tags@) == tags_view(doc.tags@).take(k as int),
        decreases doc.tags@.len() - k,
    {
        let ghost before = tags@;
        let t = utoipa_tag(&doc.tags[k]);
        assert(models(before).len() == before.len());
        tags.push(t);
        assert(tags@ == before.push(t));
        assert forall|x: int| 0 <= x < k + 1 implies #[trigger] models(tags@)[x] == tags_view(doc.tags@)[x] by {
            if x < k {
                assert(tags@[x] == before[x]);
                assert(models(before)[x] == tags_view(doc.tags@).take(k as int)[x]);
            } else {
                assert(tags@[x] == t);
                assert(tags_view(doc.tags@)[x] == (doc.tags@[x].name@, doc.tags@[x].description@));
            }
        }
        assert(models(tags@) =~= tags_view(doc.tags@).take(k + 1));
        k = k + 1;
    }
    assert(models(servers@) =~= servers_view(doc.servers@));
    assert(models(tags@) =~= tags_view(doc.tags@));
    utoipa_document(info, servers, paths, components, tags)
}

/// The API's document is the one `api_doc_model` describes.
proof fn lemma_api_doc_model(doc: OpenApiDoc)
    requires
        doc.info.title@ == "Wikify Web API"@,
        doc.info.version@ == "0.1.0"@,
        doc.info.description@ == "AI-powered repository documentation and chat system"@,
        doc.info.contact_name@ == "Wikify Team"@,
        doc.info.contact_email@ == "support@wikify.dev"@,
        doc.info.license@ == "MIT OR Apache-2.0"@,
        servers_view(doc.servers@) == documented_servers(),
        operations_view(doc.paths.paths@) == documented_operations(),
        tags_view(doc.tags@) == documented_tags(),
        doc.components matches Some(c) && schemes_view(c.security_schemes@) == seq![
            ("api_key"@, "X-API-Key"@),
        ],
    ensures
        doc_model(doc) == api_doc_model(),
{
}

/// The API's document as indented JSON: the text `utoipa` writes for the
/// document `ApiDoc::openapi` makes.
pub fn get_openapi_json() -> (r: String)
    ensures
        r@ == openapi_json_text(api_doc_model()),
{
    let api = ApiDoc::openapi();
    proof {
        lemma_api_doc_model(api);
    }
    let doc = to_utoipa(&api);
    utoipa_pretty_json(&doc)
}

/// The API's document as YAML: the text `serde_yaml` writes for the
/// document `ApiDoc::openapi` makes.
pub fn get_openapi_yaml() -> (r: String)
    ensures
        r@ == openapi_yaml_text(api_doc_model()),
{
    let api = ApiDoc::openapi();
    proof {
        lemma_api_doc_model(api);
    }
    let doc = to_utoipa(&api);
    utoipa_yaml(&doc)
}

} // verus!
