//! Request and response types of the HTTP API, and the decisions the
//! handlers make around the application layer: detecting a repository's
//! type, reading progress counts out of status messages, choosing error
//! statuses, and building the documents answered when no generated wiki
//! structure is at hand.

use vstd::prelude::*;
use crate::error::WebError;
use crate::time::{utc_now, Timestamp, MAX_UTC_SECS};
use crate::strings::{
    chars_of, concat, concat3, contains_seq, is_digit, digit_value, digits_value, is_whitespace,
    owned, slice_string, split_char, split_on, str_contains, str_eq, string_from_chars, unicode_whitespace,
};

verus! {

broadcast use vstd::string::group_string_axioms;

// ---------------------------------------------------------------------
// Request and response types
// ---------------------------------------------------------------------

/// Repository initialization request.
#[derive(Debug)]
pub struct InitializeRepositoryRequest {
    pub repository: String,
    pub repo_type: Option<String>,
    pub access_token: Option<String>,
    pub auto_index: Option<bool>,
    pub auto_generate_wiki: Option<bool>,
    pub metadata: Option<Vec<(String, String)>>,
}

/// Repository initialization response.
#[derive(Debug)]
pub struct InitializeRepositoryResponse {
    pub repository_id: String,
    pub status: String,
    pub message: String,
}

/// Repository deletion response.
#[derive(Debug)]
pub struct DeleteRepositoryResponse {
    pub status: String,
    pub message: String,
    pub deleted_repository_id: String,
}

/// Reindex response.
#[derive(Debug)]
pub struct ReindexResponse {
    pub session_id: String,
    pub status: String,
    pub message: String,
}

/// Chat query request.
#[derive(Debug)]
pub struct ChatQueryRequest {
    pub repository_id: String,
    pub question: String,
    pub context: Option<String>,
    pub max_results: Option<usize>,
}

/// Wiki generation request.
#[derive(Debug)]
pub struct GenerateWikiRequest {
    pub repository_id: String,
    pub config: WikiGenerationConfig,
}

/// Wiki generation configuration.
#[derive(Debug)]
pub struct WikiGenerationConfig {
    pub language: Option<String>,
    pub max_pages: Option<usize>,
    pub include_diagrams: Option<bool>,
    pub comprehensive_view: Option<bool>,
}

/// Wiki generation response.
#[derive(Debug)]
pub struct GenerateWikiResponse {
    pub wiki_id: String,
    pub status: String,
    pub pages_count: usize,
    pub sections_count: usize,
}

/// A wiki page as the API answers it.
#[derive(Debug)]
pub struct WikiPageResponse {
    pub id: String,
    pub title: String,
    pub content: String,
    pub description: String,
    pub importance: String,
    pub file_paths: Vec<String>,
    pub related_pages: Vec<String>,
    pub tags: Vec<String>,
    pub reading_time: usize,
    pub generated_at: String,
    pub source_documents: Vec<String>,
}

/// Wiki generation settings.
#[derive(Debug)]
pub struct WikiConfig {
    pub max_depth: usize,
    pub language: Option<String>,
}

/// Research iteration request.
#[derive(Debug)]
pub struct ResearchIterationRequest {
    pub session_id: String,
}

/// Research history filters.
#[derive(Debug)]
pub struct ResearchHistoryQuery {
    pub status: Option<String>,
    pub template_id: Option<String>,
    pub date_from: Option<String>,
    pub date_to: Option<String>,
    pub limit: Option<usize>,
    pub offset: Option<usize>,
}

/// Research configuration request.
#[derive(Debug)]
pub struct ResearchConfigRequest {
    pub max_iterations: Option<usize>,
    pub max_sources_per_iteration: Option<usize>,
    pub include_code_analysis: Option<bool>,
    pub generate_diagrams: Option<bool>,
}

/// Research start response.
#[derive(Debug)]
pub struct StartResearchResponse {
    pub research_id: String,
    pub status: String,
    pub message: String,
}

/// File tree request.
#[derive(Debug)]
pub struct GetFileTreeRequest {
    pub repository_id: String,
    pub branch: Option<String>,
}

/// File tree response.
#[derive(Debug)]
pub struct FileTreeResponse {
    pub repository_id: String,
    pub branch: Option<String>,
    pub files: Vec<RepositoryFileInfo>,
    pub total_files: usize,
}

/// A file in a repository.
#[derive(Debug)]
pub struct RepositoryFileInfo {
    pub path: String,
    pub file_type: String,
    pub size: Option<u64>,
    pub sha: Option<String>,
}

/// File content request.
#[derive(Debug)]
pub struct GetFileContentRequest {
    pub repository_id: String,
    pub file_path: String,
    pub branch: Option<String>,
}

/// File content response.
#[derive(Debug)]
pub struct FileContentResponse {
    pub repository_id: String,
    pub file_path: String,
    pub branch: Option<String>,
    pub content: String,
    pub size: usize,
    pub encoding: String,
}

/// README request.
#[derive(Debug)]
pub struct GetReadmeRequest {
    pub repository_id: String,
    pub branch: Option<String>,
}

/// README response.
#[derive(Debug)]
pub struct ReadmeResponse {
    pub repository_id: String,
    pub branch: Option<String>,
    pub content: Option<String>,
    pub found: bool,
}

/// Health check answer.
#[derive(Debug)]
pub struct HealthResponse {
    pub status: String,
    pub timestamp: Timestamp,
    pub version: String,
}

impl HealthResponse {
    /// A healthy server of version `0.1.0`, now.
    pub fn healthy() -> (h: Self)
        ensures
            h.status@ == "healthy"@,
            h.version@ == "0.1.0"@,
            0 <= h.timestamp.secs <= MAX_UTC_SECS,
    {
        HealthResponse { status: owned("healthy"), timestamp: utc_now(), version: owned("0.1.0") }
    }
}

/// A generated wiki kept in memory.
#[derive(Debug)]
pub struct CachedWiki {
    pub content: String,
    pub generated_at: Timestamp,
    pub repository: String,
    pub format: String,
}

/// A file tree answer over `files`, counting them.
pub fn file_tree_response(
    repository_id: String,
    branch: Option<String>,
    files: Vec<RepositoryFileInfo>,
) -> (r: FileTreeResponse)
    ensures
        r.repository_id == repository_id,
        r.branch == branch,
        r.files == files,
        r.total_files == files@.len(),
{
    let total_files = files.len();
    FileTreeResponse { repository_id, branch, files, total_files }
}

/// A README answer: found exactly when there is content.
pub fn readme_response(repository_id: String, branch: Option<String>, content: Option<String>) -> (r:
    ReadmeResponse)
    ensures
        r.repository_id == repository_id,
        r.branch == branch,
        r.content == content,
        r.found == content is Some,
{
    let found = content.is_some();
    ReadmeResponse { repository_id, branch, content, found }
}

// ---------------------------------------------------------------------
// Repositories
// ---------------------------------------------------------------------

/// The type of a repository, guessed from its location: `github` for a
/// GitHub URL, `gitlab` for a GitLab URL, `local` otherwise.
pub open spec fn repo_type_of(repository: Seq<char>) -> Seq<char> {
    if contains_seq(repository, "github.com"@) {
        "github"@
    } else if contains_seq(repository, "gitlab.com"@) {
        "gitlab"@
    } else {
        "local"@
    }
}

/// The type of a repository, guessed from its location.
pub fn detect_repo_type(repository: &str) -> (t: String)
    ensures
        t@ == repo_type_of(repository@),
{
    if str_contains(repository, "github.com") {
        owned("github")
    } else if str_contains(repository, "gitlab.com") {
        owned("gitlab")
    } else {
        owned("local")
    }
}

/// The repository type a request asks for, or the one guessed from the
/// repository's location.
pub fn requested_repo_type(request: &InitializeRepositoryRequest) -> (t: String)
    ensures
        t@ == match request.repo_type {
            Some(r) => r@,
            None => repo_type_of(request.repository@),
        },
{
    match &request.repo_type {
        Some(r) => r.clone(),
        None => detect_repo_type(request.repository.as_str()),
    }
}

/// The indexing state of a repository.
#[derive(Clone, Copy, Debug, PartialEq, Eq, Structural)]
pub enum IndexingStatus {
    Pending,
    Indexing,
    Completed,
    Failed,
    Cancelled,
}

/// How a repository listing names an indexing state.
pub open spec fn status_label_of(s: IndexingStatus) -> Seq<char> {
    match s {
        IndexingStatus::Pending => "pending"@,
        IndexingStatus::Indexing => "indexing"@,
        IndexingStatus::Completed => "indexed"@,
        IndexingStatus::Failed => "failed"@,
        IndexingStatus::Cancelled => "cancelled"@,
    }
}

impl IndexingStatus {
    /// How a repository listing names this state.
    pub fn label(&self) -> (l: &'static str)
        ensures
            l@ == status_label_of(*self),
    {
        match self {
            IndexingStatus::Pending => "pending",
            IndexingStatus::Indexing => "indexing",
            IndexingStatus::Completed => "indexed",
            IndexingStatus::Failed => "failed",
            IndexingStatus::Cancelled => "cancelled",
        }
    }
}

/// The HTTP status answered when adding a repository fails with the error
/// text `message`: 409 Conflict when the repository is already being
/// indexed, 500 otherwise.
pub fn initialize_failure_status(message: &str) -> (s: u16)
    ensures
        s == if contains_seq(message@, "already being indexed"@) || contains_seq(
            message@,
            "already in progress"@,
        ) {
            409u16
        } else {
            500u16
        },
{
    if str_contains(message, "already being indexed") || str_contains(message, "already in progress") {
        409
    } else {
        500
    }
}

/// The HTTP status answered when deleting a repository fails: 404 for an
/// unknown repository, 500 otherwise.
pub fn delete_failure_status(e: &WebError) -> (s: u16)
    ensures
        s == if e is NotFound {
            404u16
        } else {
            500u16
        },
{
    match e {
        WebError::NotFound(_) => 404,
        _ => 500,
    }
}

impl InitializeRepositoryResponse {
    /// The answer to a repository that was added.
    pub fn initialized(repository_id: String) -> (r: Self)
        ensures
            r.repository_id == repository_id,
            r.status@ == "success"@,
            r.message@ == "Repository initialized successfully"@,
    {
        InitializeRepositoryResponse {
            repository_id,
            status: owned("success"),
            message: owned("Repository initialized successfully"),
        }
    }

    /// The answer to a repository whose reindexing started.
    pub fn reindexing(repository_id: String) -> (r: Self)
        ensures
            r.repository_id == repository_id,
            r.status@ == "success"@,
            r.message@ == "Repository reindexing started successfully"@,
    {
        InitializeRepositoryResponse {
            repository_id,
            status: owned("success"),
            message: owned("Repository reindexing started successfully"),
        }
    }
}

impl DeleteRepositoryResponse {
    /// The answer to a repository that was deleted.
    pub fn deleted(repository_id: String) -> (r: Self)
        ensures
            r.deleted_repository_id == repository_id,
            r.status@ == "success"@,
            r.message@ == "Repository deleted successfully"@,
    {
        DeleteRepositoryResponse {
            status: owned("success"),
            message: owned("Repository deleted successfully"),
            deleted_repository_id: repository_id,
        }
    }
}

impl GenerateWikiResponse {
    /// The answer to a wiki generation request, which the server does not
    /// carry out through this endpoint: the repository id as wiki id,
    /// status `not_implemented`, no pages or sections.
    pub fn not_implemented(repository_id: String) -> (r: Self)
        ensures
            r.wiki_id == repository_id,
            r.status@ == "not_implemented"@,
            r.pages_count == 0,
            r.sections_count == 0,
    {
        GenerateWikiResponse {
            wiki_id: repository_id,
            status: owned("not_implemented"),
            pages_count: 0,
            sections_count: 0,
        }
    }
}

/// The answer given when a chat query fails with the error text `error`.
pub fn chat_error_answer(error: &str) -> (a: String)
    ensures
        a@ == "Sorry, I encountered an error while processing your question: "@ + error@,
{
    concat("Sorry, I encountered an error while processing your question: ", error)
}

/// The content shown for a source document whose text is not at hand.
pub fn source_reference(path: &str) -> (c: String)
    ensures
        c@ == "Source: "@ + path@,
{
    concat("Source: ", path)
}

// ---------------------------------------------------------------------
// Progress counts in status messages
// ---------------------------------------------------------------------

/// `s` without a leading `+`.
pub open spec fn unsigned_part(s: Seq<char>) -> Seq<char> {
    if s.len() > 0 && s[0] == '+' {
        s.drop_first()
    } else {
        s
    }
}

/// Every character of `s` is an ASCII digit.
pub open spec fn all_digits(s: Seq<char>) -> bool {
    forall|i: int| 0 <= i < s.len() ==> is_digit(#[trigger] s[i])
}

/// The number `str::parse::<usize>` reads from `s`: an optional `+` and
/// then one or more ASCII digits, whose value fits in a `usize`.
pub open spec fn parsed_usize(s: Seq<char>) -> Option<usize> {
    let digits = unsigned_part(s);
    if digits.len() > 0 && all_digits(digits) && digits_value(digits) <= usize::MAX {
        Some(digits_value(digits) as usize)
    } else {
        None
    }
}

proof fn lemma_digits_value_grows(s: Seq<char>, i: int)
    requires
        0 <= i <= s.len(),
        all_digits(s),
    ensures
        digits_value(s.take(i)) <= digits_value(s),
    decreases s.len() - i,
{
    if i < s.len() {
        lemma_digits_value_grows(s, i + 1);
        assert(s.take(i + 1).drop_last() =~= s.take(i));
        assert(digits_value(s.take(i + 1)) == digits_value(s.take(i)) * 10 + digit_value(s[i]));
    } else {
        assert(s.take(i) =~= s);
    }
}

/// `s` read as a `usize` (see `parsed_usize`).
pub fn parse_usize(s: &str) -> (r: Option<usize>)
    ensures
        r == parsed_usize(s@),
{
    let v = chars_of(s);
    let start: usize = if v.len() > 0 && v[0] == '+' {
        1
    } else {
        0
    };
    let ghost digits = unsigned_part(s@);
    assert(digits =~= v@.skip(start as int));
    if start >= v.len() {
        return None;
    }
    let mut value: usize = 0;
    let mut i: usize = start;
    assert(v@.skip(start as int).take(0) =~= Seq::<char>::empty());
    while i < v.len()
        invariant
            start <= i <= v@.len(),
            digits == v@.skip(start as int),
            digits == unsigned_part(s@),
            forall|k: int| 0 <= k < i - start ==> is_digit(#[trigger] digits[k]),
            value == digits_value(digits.take(i - start)),
        decreases v@.len() - i,
    {
        let c = v[i];
        assert(digits[i - start] == c);
        if !('0' <= c && c <= '9') {
            assert(!is_digit(digits[i - start]));
            assert(!all_digits(digits));
            return None;
        }
        let d: usize = (c as u32 - '0' as u32) as usize;
        assert(d == digit_value(c));
        assert(digits.take(i - start + 1).drop_last() =~= digits.take(i - start));
        assert(digits.take(i - start + 1).last() == c);
        assert(digits_value(digits.take(i - start + 1)) == value * 10 + digit_value(c));
        if value > (usize::MAX - d) / 10 {
            proof {
                assert(value * 10 + d > usize::MAX) by (nonlinear_arith)
                    requires
                        value > (usize::MAX - d) / 10,
                        d <= 9,
                ;
                if all_digits(digits) {
                    lemma_digits_value_grows(digits, i - start + 1);
                    assert(digits_value(digits) > usize::MAX);
                }
            }
            return None;
        }
        assert(value * 10 + d <= usize::MAX) by (nonlinear_arith)
            requires
                value <= (usize::MAX - d) / 10,
                d <= 9,
        ;
        value = value * 10 + d;
        i = i + 1;
    }
    assert(digits.take(i - start) =~= digits);
    Some(value)
}

/// The two numbers of the first `<digits>/<digits>` in a message, as the
/// `regex` crate finds the pattern `(\d+)/(\d+)`: the texts of its two
/// groups, or `None` when the message has no match.
pub uninterp spec fn ratio_capture_texts(message: Seq<char>) -> Option<(Seq<char>, Seq<char>)>;

/// `regex::Regex::captures` with the pattern `(\d+)/(\d+)` on `message`:
/// the texts of the two groups of the first match.
#[verifier::external_body]
fn ratio_captures(message: &str) -> (r: Option<(String, String)>)
    ensures
        match r {
            Some((a, b)) => ratio_capture_texts(message@) == Some((a@, b@)),
            None => ratio_capture_texts(message@) is None,
        },
{
    let re = regex::Regex::new(r"(\d+)/(\d+)").unwrap();
    match re.captures(message) {
        Some(caps) => Some((caps[1].to_string(), caps[2].to_string())),
        None => None,
    }
}

/// The counts that two captured texts give: both numbers when both parse,
/// and nothing otherwise.
pub open spec fn progress_numbers_of(caps: Option<(Seq<char>, Seq<char>)>) -> (Option<usize>, Option<usize>) {
    match caps {
        Some((a, b)) => if parsed_usize(a) is Some && parsed_usize(b) is Some {
            (parsed_usize(a), parsed_usize(b))
        } else {
            (None, None)
        },
        None => (None, None),
    }
}

/// The processed and total counts that the captured texts `caps` give.
pub fn progress_numbers_from_captures(caps: Option<(String, String)>) -> (r: (Option<usize>, Option<usize>))
    ensures
        r == progress_numbers_of(
            match caps {
                Some((a, b)) => Some((a@, b@)),
                None => None,
            },
        ),
{
    match caps {
        Some((a, b)) => {
            let processed = parse_usize(a.as_str());
            let total = parse_usize(b.as_str());
            if processed.is_some() && total.is_some() {
                (processed, total)
            } else {
                (None, None)
            }
        },
        None => (None, None),
    }
}

/// The processed and total counts in a progress message such as
/// `Processing 37/53 nodes`.
pub fn extract_progress_numbers(message: &str) -> (r: (Option<usize>, Option<usize>))
    ensures
        r == progress_numbers_of(ratio_capture_texts(message@)),
{
    let caps = ratio_captures(message);
    progress_numbers_from_captures(caps)
}

// ---------------------------------------------------------------------
// Wiki documents
// ---------------------------------------------------------------------

/// The number of words in `s`: maximal runs of characters that are not
/// White_Space, as `str::split_whitespace` yields them.
pub open spec fn word_count(s: Seq<char>) -> nat
    decreases s.len(),
{
    if s.len() == 0 {
        0
    } else {
        let starts_word = !unicode_whitespace(s.last()) && (s.len() == 1 || unicode_whitespace(
            s[s.len() - 2],
        ));
        word_count(s.drop_last()) + if starts_word {
            1nat
        } else {
            0nat
        }
    }
}

/// The number of words in `s`.
pub fn count_words(s: &str) -> (n: usize)
    ensures
        n == word_count(s@),
{
    let v = chars_of(s);
    let mut n: usize = 0;
    let mut i: usize = 0;
    let mut prev_space = true;
    assert(v@.take(0) =~= Seq::<char>::empty());
    while i < v.len()
        invariant
            i <= v@.len(),
            v@ == s@,
            n == word_count(v@.take(i as int)),
            n <= i,
            prev_space == (i == 0 || unicode_whitespace(v@[i - 1])),
        decreases v@.len() - i,
    {
        let space = is_whitespace(v[i]);
        let ghost t = v@.take(i + 1);
        assert(t.drop_last() =~= v@.take(i as int));
        assert(t.last() == v@[i as int]);
        if i > 0 {
            assert(t[t.len() - 2] == v@[i - 1]);
        }
        if !space && prev_space {
            n = n + 1;
        }
        prev_space = space;
        i = i + 1;
    }
    assert(v@.take(i as int) =~= v@);
    n
}

/// Reading time in minutes at about 200 words a minute, at least one.
pub open spec fn reading_minutes(content: Seq<char>) -> nat {
    let m = word_count(content) / 200;
    if m < 1 {
        1
    } else {
        m
    }
}

/// The reading time of `content` in minutes.
pub fn reading_time(content: &str) -> (m: usize)
    ensures
        m == reading_minutes(content@),
{
    let m = count_words(content) / 200;
    if m < 1 {
        1
    } else {
        m
    }
}

/// The last `/`-separated segment of `path`.
pub open spec fn last_segment(path: Seq<char>) -> Seq<char> {
    split_char(path, '/').last()
}

/// The last `/`-separated segment of `path` (all of it when it has no
/// `/`).
pub fn last_path_segment(path: &str) -> (s: String)
    ensures
        s@ == last_segment(path@),
{
    let v = chars_of(path);
    let pieces = split_on(v.as_slice(), '/');
    proof {
        crate::strings::lemma_split_char_nonempty(path@, '/');
    }
    let last = &pieces[pieces.len() - 1];
    slice_string(last.as_slice(), 0, last.len())
}

/// The title of the wiki of a repository: its last path segment and
/// ` Wiki`.
pub fn wiki_title_for(repository_url: &str) -> (t: String)
    ensures
        t@ == last_segment(repository_url@) + " Wiki"@,
{
    let name = last_path_segment(repository_url);
    concat(name.as_str(), " Wiki")
}

/// The description of the wiki of a repository.
pub fn wiki_description_for(repository_url: &str) -> (d: String)
    ensures
        d@ == "Generated wiki for repository: "@ + repository_url@,
{
    concat("Generated wiki for repository: ", repository_url)
}

/// The content kept for a generated wiki: the first page's content, or,
/// when there are no pages, a heading with the wiki's title, its
/// description, and a note that no pages were generated.
pub fn wiki_content_of(first_page: Option<&str>, title: &str, description: &str) -> (c: String)
    ensures
        c@ == match first_page {
            Some(p) => p@,
            None => "# "@ + title@ + "\n\n"@ + description@
                + "\n\nNo content pages were generated."@,
        },
{
    match first_page {
        Some(p) => owned(p),
        None => {
            let head = concat3("# ", title, "\n\n");
            concat3(head.as_str(), description, "\n\nNo content pages were generated.")
        },
    }
}

/// The single page of a wiki known only by its content: `main`, `Main
/// Documentation`, critical, tagged `documentation`, with its reading
/// time.
pub fn main_documentation_page(content: String, generated_at: String) -> (p: WikiPageResponse)
    ensures
        p.id@ == "main"@,
        p.title@ == "Main Documentation"@,
        p.content == content,
        p.description@ == "Main documentation page"@,
        p.importance@ == "Critical"@,
        p.file_paths@.len() == 0,
        p.related_pages@.len() == 0,
        p.tags@.len() == 1 && p.tags@[0]@ == "documentation"@,
        p.reading_time == reading_minutes(content@),
        p.generated_at == generated_at,
        p.source_documents@.len() == 0,
{
    let reading = reading_time(content.as_str());
    let mut tags: Vec<String> = Vec::new();
    tags.push(owned("documentation"));
    WikiPageResponse {
        id: owned("main"),
        title: owned("Main Documentation"),
        content,
        description: owned("Main documentation page"),
        importance: owned("Critical"),
        file_paths: Vec::new(),
        related_pages: Vec::new(),
        tags,
        reading_time: reading,
        generated_at,
        source_documents: Vec::new(),
    }
}

// ---------------------------------------------------------------------
// Research template categories
// ---------------------------------------------------------------------

/// A category of research templates.
#[derive(Clone, Copy, Debug, PartialEq, Eq, Structural)]
pub enum ResearchCategory {
    Technical,
    Architecture,
    Security,
    Performance,
    Documentation,
    Business,
    Custom,
}

/// `c` with an ASCII capital turned into its small letter.
pub open spec fn ascii_lower(c: char) -> char {
    if 'A' <= c && c <= 'Z' {
        ((c as u32) + 32) as char
    } else {
        c
    }
}

/// `s` with its ASCII capitals turned into small letters.
pub open spec fn ascii_lowercase(s: Seq<char>) -> Seq<char> {
    s.map_values(|c: char| ascii_lower(c))
}

/// The category a name denotes, whatever the case of its letters.  (Of
/// the characters outside ASCII only the Kelvin sign lowercases to an
/// ASCII letter, `k`, which no category name holds; so this is the match
/// of the name's Unicode lowercase.)
pub open spec fn category_named(s: Seq<char>) -> Option<ResearchCategory> {
    let l = ascii_lowercase(s);
    if l == "technical"@ {
        Some(ResearchCategory::Technical)
    } else if l == "architecture"@ {
        Some(ResearchCategory::Architecture)
    } else if l == "security"@ {
        Some(ResearchCategory::Security)
    } else if l == "performance"@ {
        Some(ResearchCategory::Performance)
    } else if l == "documentation"@ {
        Some(ResearchCategory::Documentation)
    } else if l == "business"@ {
        Some(ResearchCategory::Business)
    } else if l == "custom"@ {
        Some(ResearchCategory::Custom)
    } else {
        None
    }
}

/// The category a path segment names, `None` (answered 400) for any
/// other text.
pub fn parse_research_category(s: &str) -> (r: Option<ResearchCategory>)
    ensures
        r == category_named(s@),
{
    let v = chars_of(s);
    let mut lower: Vec<char> = Vec::new();
    let mut i: usize = 0;
    while i < v.len()
        invariant
            i <= v@.len(),
            lower@ == ascii_lowercase(v@.take(i as int)),
        decreases v@.len() - i,
    {
        let c = v[i];
        let l = if 'A' <= c && c <= 'Z' {
            let b: u8 = (c as u32) as u8;
            (b + 32) as char
        } else {
            c
        };
        lower.push(l);
        assert(ascii_lowercase(v@.take(i + 1)) =~= ascii_lowercase(v@.take(i as int)).push(ascii_lower(c)));
        i = i + 1;
    }
    assert(v@.take(v@.len() as int) =~= v@);
    let text = string_from_chars(lower.as_slice());
    let t = text.as_str();
    if str_eq(t, "technical") {
        Some(ResearchCategory::Technical)
    } else if str_eq(t, "architecture") {
        Some(ResearchCategory::Architecture)
    } else if str_eq(t, "security") {
        Some(ResearchCategory::Security)
    } else if str_eq(t, "performance") {
        Some(ResearchCategory::Performance)
    } else if str_eq(t, "documentation") {
        Some(ResearchCategory::Documentation)
    } else if str_eq(t, "business") {
        Some(ResearchCategory::Business)
    } else if str_eq(t, "custom") {
        Some(ResearchCategory::Custom)
    } else {
        None
    }
}

} // verus!
