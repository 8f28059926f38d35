//! WebSocket session decisions: which progress updates a connection still
//! has to be sent, and the texts the session sends on its own.

use vstd::prelude::*;
use crate::keyed::KeyedList;
use crate::strings::{concat, concat3, decimal, decimal_string, owned};

verus! {

broadcast use vstd::string::group_string_axioms;

/// Wiki generation settings sent over a WebSocket.
#[derive(Debug)]
pub struct WsWikiConfig {
    pub include_code_examples: bool,
    pub max_depth: usize,
    pub language: Option<String>,
}

/// How many distinct update ids a connection remembers before it starts
/// afresh.
pub const REMEMBERED_UPDATES: usize = 1000;

/// The ids of the progress updates a connection has already sent, so that
/// an update is not sent twice.  The memory is dropped whenever it would
/// hold more than `REMEMBERED_UPDATES` ids.
#[derive(Debug)]
pub struct DeliveryFilter {
    sent: KeyedList<()>,
}

impl DeliveryFilter {
    /// The memory is a well-formed list of at most `REMEMBERED_UPDATES`
    /// ids.
    pub closed spec fn wf(&self) -> bool {
        self.sent.wf() && self.sent.items().len() <= REMEMBERED_UPDATES
    }

    /// The ids remembered as sent.
    pub closed spec fn seen(&self) -> Set<Seq<char>> {
        self.sent@.dom()
    }

    /// A filter that has sent nothing.
    pub fn new() -> (f: Self)
        ensures
            f.wf(),
            f.seen() == Set::<Seq<char>>::empty(),
    {
        DeliveryFilter { sent: KeyedList::new() }
    }

    /// How many ids are remembered.
    pub fn remembered(&self) -> (n: usize)
        requires
            self.wf(),
        ensures
            n == self.seen().len(),
            n <= REMEMBERED_UPDATES,
    {
        proof {
            self.sent.lemma_items();
        }
        self.sent.len()
    }

    /// Whether the update with id `id` is to be sent: it is unless it was
    /// sent before.  A sent id is remembered; when that makes more than
    /// `REMEMBERED_UPDATES` ids, the memory is cleared.
    pub fn should_send(&mut self, id: String) -> (send: bool)
        requires
            old(self).wf(),
        ensures
            final(self).wf(),
            final(self).seen().finite(),
            send == !old(self).seen().contains(id@),
            !send ==> final(self).seen() == old(self).seen(),
            send ==> if old(self).seen().len() + 1 > REMEMBERED_UPDATES {
                final(self).seen() == Set::<Seq<char>>::empty()
            } else {
                final(self).seen() == old(self).seen().insert(id@)
            },
    {
        proof {
            self.sent.lemma_items();
        }
        if self.sent.contains_key(id.as_str()) {
            return false;
        }
        let ghost before = self.sent@;
        self.sent.insert(id, ());
        proof {
            self.sent.lemma_items();
            assert(self.sent@.dom() =~= before.dom().insert(id@));
            assert(self.sent@.dom().len() == before.dom().len() + 1);
        }
        if self.sent.len() > REMEMBERED_UPDATES {
            self.sent.clear();
            proof {
                self.sent.lemma_items();
            }
            assert(self.sent@.dom() =~= Set::<Seq<char>>::empty());
        }
        true
    }
}

/// What a connection has to react to next.
#[derive(Debug)]
pub enum SocketEvent {
    /// A text message from the client.
    ClientText,
    /// The client closed the connection.
    ClientClosed,
    /// The client's side reported an error.
    ClientFailed,
    /// The client's stream ended.
    ClientEnded,
    /// Another kind of frame from the client (binary, ping, pong).
    ClientOther,
    /// Handling the client's message failed.
    HandlingFailed,
    /// A progress update with the given id.
    Update(String),
    /// Sending an update to the client failed.
    SendFailed,
    /// Updates were skipped because the connection fell behind.
    Lagged,
    /// No more progress updates will come.
    UpdatesClosed,
}

/// What a connection does about an event.
#[derive(Debug, PartialEq, Eq, Structural)]
pub enum SocketAction {
    /// Handle the client's message.
    HandleMessage,
    /// Send the update to the client.
    SendUpdate,
    /// Wait for the next event.
    Wait,
    /// End the session.
    Close,
}

/// The session's decision on `event`: a client text is handled; an update
/// is sent unless the filter has sent it before (see `should_send`);
/// other frames and lagging are waited out; the end or failure of either
/// side, of a handler or of a send ends the session.  Only an update
/// changes the filter.
pub fn next_action(filter: &mut DeliveryFilter, event: SocketEvent) -> (a: SocketAction)
    requires
        old(filter).wf(),
    ensures
        final(filter).wf(),
        match event {
            SocketEvent::ClientText => a == SocketAction::HandleMessage && final(filter).seen() == old(filter).seen(),
            SocketEvent::ClientOther | SocketEvent::Lagged => a == SocketAction::Wait && final(filter).seen()
                == old(filter).seen(),
            SocketEvent::Update(id) => {
                &&& (a == SocketAction::SendUpdate) == !old(filter).seen().contains(id@)
                &&& (a == SocketAction::SendUpdate || a == SocketAction::Wait)
                &&& a == SocketAction::Wait ==> final(filter).seen() == old(filter).seen()
                &&& a == SocketAction::SendUpdate ==> if old(filter).seen().len() + 1 > REMEMBERED_UPDATES {
                    final(filter).seen() == Set::<Seq<char>>::empty()
                } else {
                    final(filter).seen() == old(filter).seen().insert(id@)
                }
            },
            _ => a == SocketAction::Close && final(filter).seen() == old(filter).seen(),
        },
{
    match event {
        SocketEvent::ClientText => SocketAction::HandleMessage,
        SocketEvent::ClientOther => SocketAction::Wait,
        SocketEvent::Lagged => SocketAction::Wait,
        SocketEvent::Update(id) => {
            if filter.should_send(id) {
                SocketAction::SendUpdate
            } else {
                SocketAction::Wait
            }
        },
        _ => SocketAction::Close,
    }
}

/// A request a client sends over the socket.
#[derive(Debug)]
pub enum ClientRequest {
    /// A question about a repository.
    Chat { repository_id: String, question: String },
    /// A request to generate a repository's wiki.
    WikiGenerate { repository_id: String },
    /// A heartbeat.
    Ping,
    /// An answer to a heartbeat.
    Pong,
    /// Any other message.
    Unsupported,
}

/// What the session answers a client request with.
#[derive(Debug)]
pub enum SocketReply {
    /// A complete (not streamed) chat answer with no sources.
    ChatAnswer { repository_id: String, answer: String },
    /// A finished wiki generation.
    WikiComplete { repository_id: String, wiki_id: String, pages_count: usize, sections_count: usize },
    /// A heartbeat answer.
    Pong,
    /// No answer.
    Nothing,
}

/// The answer to a chat question while chat over the socket is not
/// available.
pub fn chat_unavailable_answer(question: &str) -> (a: String)
    ensures
        a@ == "Chat functionality not yet implemented for question: "@ + question@,
{
    concat("Chat functionality not yet implemented for question: ", question)
}

/// The session's answer to a client request: a chat question gets the
/// answer that chat is not available, a wiki request a finished wiki with
/// the id `placeholder` and no pages or sections, a ping a pong, and
/// anything else nothing.
pub fn reply_to(request: ClientRequest) -> (r: SocketReply)
    ensures
        match request {
            ClientRequest::Chat { repository_id, question } => r matches SocketReply::ChatAnswer {
                repository_id: rid,
                answer,
            } && rid == repository_id && answer@ == "Chat functionality not yet implemented for question: "@
                + question@,
            ClientRequest::WikiGenerate { repository_id } => r matches SocketReply::WikiComplete {
                repository_id: rid,
                wiki_id,
                pages_count,
                sections_count,
            } && rid == repository_id && wiki_id@ == "placeholder"@ && pages_count == 0 && sections_count == 0,
            ClientRequest::Ping => r is Pong,
            _ => r is Nothing,
        },
{
    match request {
        ClientRequest::Chat { repository_id, question } => {
            let answer = chat_unavailable_answer(question.as_str());
            SocketReply::ChatAnswer { repository_id, answer }
        },
        ClientRequest::WikiGenerate { repository_id } => SocketReply::WikiComplete {
            repository_id,
            wiki_id: owned("placeholder"),
            pages_count: 0,
            sections_count: 0,
        },
        ClientRequest::Ping => SocketReply::Pong,
        _ => SocketReply::Nothing,
    }
}

/// The greeting a connection is sent when it opens.
pub fn welcome_text() -> (t: &'static str)
    ensures
        t@ == "WebSocket connection established. You will receive real-time updates for all operations."@,
{
    "WebSocket connection established. You will receive real-time updates for all operations."
}

/// The id of an update that indexing of `repository_id` started.
pub fn started_update_id(repository_id: &str) -> (id: String)
    ensures
        id@ == "started-"@ + repository_id@,
{
    concat("started-", repository_id)
}

/// The id of an update that indexing of `repository_id` completed.
pub fn complete_update_id(repository_id: &str) -> (id: String)
    ensures
        id@ == "complete-"@ + repository_id@,
{
    concat("complete-", repository_id)
}

/// The id of an update that indexing of `repository_id` failed.
pub fn error_update_id(repository_id: &str) -> (id: String)
    ensures
        id@ == "error-"@ + repository_id@,
{
    concat("error-", repository_id)
}

/// The id of a research update of kind `kind` (`started`, `complete`,
/// `error`) for `research_id` on `repository_id`.
pub fn research_update_id(kind: &str, repository_id: &str, research_id: &str) -> (id: String)
    ensures
        id@ == "research-"@ + kind@ + "-"@ + repository_id@ + "-"@ + research_id@,
{
    let head = concat3("research-", kind, "-");
    let middle = concat3(head.as_str(), repository_id, "-");
    concat(middle.as_str(), research_id)
}

/// The id of a research progress update at iteration `iteration`.
pub fn research_progress_update_id(repository_id: &str, research_id: &str, iteration: u64) -> (id:
    String)
    ensures
        id@ == "research-progress-"@ + repository_id@ + "-"@ + research_id@ + "-"@ + decimal(
            iteration as nat,
        ),
{
    let head = concat3("research-progress-", repository_id, "-");
    let middle = concat3(head.as_str(), research_id, "-");
    let n = decimal_string(iteration);
    concat(middle.as_str(), n.as_str())
}

} // verus!
