use vstd::prelude::*;
use crate::handlers::Handlers;
use crate::protocol::{
    Envelope, Payload, RequestKind, StatResponse, envelope_kind, reply_frame,
    is_error_frame, marker_frame, LINE_ENDING_UNIX,
};
use crate::response::{Response, concluded};

verus! {

/// The line-ending convention a file is saved with.
#[derive(Clone, Copy, PartialEq, Eq, Structural)]
pub enum LineEnding {
    Unix,
    Windows,
}

/// The convention named by a write request's wire value: Unix for its own
/// value, Windows for any other.
pub open spec fn line_ending_spec(v: i32) -> LineEnding {
    if v == LINE_ENDING_UNIX {
        LineEnding::Unix
    } else {
        LineEnding::Windows
    }
}

/// The convention named by a write request's wire value.
pub fn line_ending_of(v: i32) -> (r: LineEnding)
    ensures
        r == line_ending_spec(v),
{
    if v == LINE_ENDING_UNIX {
        LineEnding::Unix
    } else {
        LineEnding::Windows
    }
}

/// The filesystem or worktree work that answering a request needs.
pub enum FsCall {
    Nothing,
    Load { path: String },
    ReadLink { path: String },
    Canonicalize { path: String },
    ReadDir { path: String },
    Metadata { path: String },
    Save { path: String, content: String, line_ending: LineEnding },
    OpenWorktree { path: String },
}

/// What came of an [`FsCall`].
pub enum FsOutcome {
    /// No work was asked for.
    Nothing,
    /// The content of a loaded file.
    Content(String),
    /// A resolved path.
    Path(String),
    /// The directory's entries, in the order listed; an entry that could not
    /// be read carries its error's text.
    Entries(Vec<Result<String, String>>),
    /// The entry's metadata, or `None` when there is no such entry.
    Metadata(Option<StatResponse>),
    /// The file was written.
    Saved,
    /// The worktree was opened.
    Opened,
    /// The work failed with this error text.
    Failed(String),
}

/// The work that a request with payload `p` needs once its kind has a handler.
pub open spec fn call_spec(p: Payload) -> FsCall {
    match p {
        Payload::ReadFile { path } => FsCall::Load { path },
        Payload::ReadLink { path } => FsCall::ReadLink { path },
        Payload::Canonicalize { path } => FsCall::Canonicalize { path },
        Payload::ReadDir { path } => FsCall::ReadDir { path },
        Payload::Stat { path } => FsCall::Metadata { path },
        Payload::WriteFile { path, content, line_ending } => FsCall::Save {
            path,
            content,
            line_ending: line_ending_spec(line_ending),
        },
        Payload::AddWorktree { path } => FsCall::OpenWorktree { path },
        _ => FsCall::Nothing,
    }
}

/// Whether `o` is an outcome of the shape that call `c` gives.
pub open spec fn fits_spec(c: FsCall, o: FsOutcome) -> bool {
    match o {
        FsOutcome::Nothing => c is Nothing,
        FsOutcome::Content(_) => c is Load,
        FsOutcome::Path(_) => c is ReadLink || c is Canonicalize,
        FsOutcome::Entries(_) => c is ReadDir,
        FsOutcome::Metadata(_) => c is Metadata,
        FsOutcome::Saved => c is Save,
        FsOutcome::Opened => c is OpenWorktree,
        FsOutcome::Failed(_) => !(c is Nothing),
    }
}

impl FsCall {
    /// Whether `outcome` is of the shape that this call gives.
    pub fn fits(&self, outcome: &FsOutcome) -> (r: bool)
        ensures
            r == fits_spec(*self, *outcome),
    {
        match outcome {
            FsOutcome::Nothing => matches!(self, FsCall::Nothing),
            FsOutcome::Content(_) => matches!(self, FsCall::Load { .. }),
            FsOutcome::Path(_) => matches!(self, FsCall::ReadLink { .. })
                || matches!(self, FsCall::Canonicalize { .. }),
            FsOutcome::Entries(_) => matches!(self, FsCall::ReadDir { .. }),
            FsOutcome::Metadata(_) => matches!(self, FsCall::Metadata { .. }),
            FsOutcome::Saved => matches!(self, FsCall::Save { .. }),
            FsOutcome::Opened => matches!(self, FsCall::OpenWorktree { .. }),
            FsOutcome::Failed(_) => !matches!(self, FsCall::Nothing),
        }
    }
}

/// Whether every entry of a directory listing could be read.
pub open spec fn listing_ok(items: Seq<Result<String, String>>) -> bool {
    forall|i: int| 0 <= i < items.len() ==> items[i] is Ok
}

/// The paths of a listing whose entries could all be read.
pub open spec fn listing_paths(items: Seq<Result<String, String>>) -> Seq<String> {
    items.map_values(|r: Result<String, String>| r->Ok_0)
}

/// Whether `i` is the position of the first entry of the listing that failed.
pub open spec fn first_error_at(items: Seq<Result<String, String>>, i: int) -> bool {
    &&& 0 <= i < items.len()
    &&& items[i] is Err
    &&& forall|j: int| 0 <= j < i ==> items[j] is Ok
}

/// Drains a directory listing: the paths of all entries, or the error of the
/// first entry that could not be read (no partial result).
pub fn collect_paths(items: &Vec<Result<String, String>>) -> (r: Result<Vec<String>, String>)
    ensures
        match r {
            Ok(paths) => listing_ok(items@) && paths@ == listing_paths(items@),
            Err(e) => exists|i: int| first_error_at(items@, i) && e == items@[i]->Err_0,
        },
{
    let mut paths: Vec<String> = Vec::new();
    let mut i: usize = 0;
    while i < items.len()
        invariant
            i <= items@.len(),
            forall|j: int| 0 <= j < i ==> items@[j] is Ok,
            paths@ == listing_paths(items@.take(i as int)),
        decreases items@.len() - i,
    {
        match &items[i] {
            Ok(p) => {
                paths.push(p.clone());
            },
            Err(e) => {
                assert(first_error_at(items@, i as int));
                return Err(e.clone());
            },
        }
        assert(items@.take(i as int + 1) =~= items@.take(i as int).push(items@[i as int]));
        i = i + 1;
    }
    assert(items@.take(i as int) =~= items@);
    Ok(paths)
}

/// The error text of a request whose kind has no handler.
pub open spec fn unhandled_message() -> Seq<char> {
    "unhandled request type"@
}

/// The error text of a worktree request once worktree ids have run out.
pub open spec fn exhausted_message() -> Seq<char> {
    "worktree ids exhausted"@
}

/// The kind a request is dispatched as: its own, when a handler is registered
/// for it, else `None`.
pub open spec fn dispatched_kind(registered: Set<RequestKind>, m: Envelope) -> Option<RequestKind> {
    match envelope_kind(m) {
        Some(k) => if registered.contains(k) {
            Some(k)
        } else {
            None
        },
        None => None,
    }
}

/// The work that dispatching `m` needs.
pub open spec fn call_of(registered: Set<RequestKind>, m: Envelope) -> FsCall {
    match dispatched_kind(registered, m) {
        Some(_) => call_spec(m.payload->Some_0),
        None => FsCall::Nothing,
    }
}

/// The path named by an add-worktree request.
pub open spec fn worktree_path(m: Envelope) -> Seq<char> {
    match m.payload {
        Some(Payload::AddWorktree { path }) => path@,
        _ => Seq::empty(),
    }
}

/// Whether `f` is the one frame sent for request `id`, dispatched as `kind`,
/// whose work came out as `o`, in the cases where one is sent; `worktree_id`
/// is the id the next worktree gets.
pub open spec fn answer_frame(
    kind: Option<RequestKind>,
    o: FsOutcome,
    id: u32,
    worktree_id: u64,
    f: Envelope,
) -> bool {
    match kind {
        None => is_error_frame(f, id, unhandled_message()),
        Some(_) => match o {
            FsOutcome::Failed(e) => is_error_frame(f, id, e@),
            FsOutcome::Nothing => f == reply_frame(id, Payload::Ack),
            FsOutcome::Content(c) => f == reply_frame(id, Payload::ReadFileResponse { content: c }),
            FsOutcome::Path(p) => f == reply_frame(id, Payload::PathResponse { path: p }),
            FsOutcome::Entries(items) => if listing_ok(items@) {
                &&& f.id == 0
                &&& f.original_sender_id is None
                &&& f.responding_to == Some(id)
                &&& f.payload matches Some(Payload::ReadDirResponse { paths }) && paths@
                    == listing_paths(items@)
            } else {
                exists|i: int| first_error_at(items@, i) && is_error_frame(f, id, items@[i]->Err_0@)
            },
            FsOutcome::Metadata(m) => m matches Some(m) && f == reply_frame(
                id,
                Payload::StatResponse(m),
            ),
            FsOutcome::Saved => false,
            FsOutcome::Opened => if worktree_id < u64::MAX {
                f == reply_frame(id, Payload::AddWorktreeResponse { worktree_id })
            } else {
                is_error_frame(f, id, exhausted_message())
            },
        },
    }
}

/// Whether `sent` are the frames sent for request `id`, dispatched as `kind`,
/// whose work came out as `o`, before its completion frame: none for a save
/// that succeeded or a metadata query on a path that does not exist, else the
/// one reply or error that [`answer_frame`] describes.
pub open spec fn answers(
    kind: Option<RequestKind>,
    o: FsOutcome,
    id: u32,
    worktree_id: u64,
    sent: Seq<Envelope>,
) -> bool {
    if kind is Some && (o is Saved || o matches FsOutcome::Metadata(None)) {
        sent.len() == 0
    } else {
        sent.len() == 1 && answer_frame(kind, o, id, worktree_id, sent[0])
    }
}

/// The worktree list after one more worktree, rooted at `path`, was added.
pub open spec fn add_step(ws: Seq<(u64, Seq<char>)>, path: Seq<char>) -> Seq<(u64, Seq<char>)> {
    ws.push(((ws.len() + 1) as u64, path))
}

/// Whether dispatching `m` dispatched as `kind` with outcome `o` adds a worktree.
pub open spec fn adds_worktree(kind: Option<RequestKind>, o: FsOutcome, next_id: u64) -> bool {
    kind == Some(RequestKind::AddWorktree) && o is Opened && next_id < u64::MAX
}

/// A worktree that the server holds: its id and its root path.
pub struct WorktreeHandle {
    pub id: u64,
    pub path: String,
}

/// The state that the server's requests share: the worktrees added so far,
/// in order, and the id the next one gets.
struct ServerState {
    worktrees: Vec<WorktreeHandle>,
    next_worktree_id: u64,
}

/// The request server: its handler registry and its shared state.
pub struct Server {
    handlers: Handlers,
    state: ServerState,
}

impl Server {
    /// The request kinds that have a handler.
    pub closed spec fn registered(&self) -> Set<RequestKind> {
        self.handlers@
    }

    /// The worktrees added so far, as (id, root path), in the order added.
    pub closed spec fn worktrees(&self) -> Seq<(u64, Seq<char>)> {
        self.state.worktrees@.map_values(|w: WorktreeHandle| (w.id, w.path@))
    }

    /// The id the next worktree gets.
    pub closed spec fn next_worktree_id(&self) -> u64 {
        self.state.next_worktree_id
    }

    /// The worktrees are numbered 1, 2, ... in the order they were added,
    /// and the next id follows the last.
    pub open spec fn wf(&self) -> bool {
        &&& forall|i: int| 0 <= i < self.worktrees().len() ==> #[trigger] self.worktrees()[i].0 == i + 1
        &&& self.next_worktree_id() as int == self.worktrees().len() + 1
    }

    /// The registry with a handler for every request kind.
    pub fn build_handlers() -> (r: Handlers)
        ensures
            forall|k: RequestKind| r@.contains(k),
    {
        let r = Handlers::new().add(RequestKind::Ping).add(RequestKind::WriteFile).add(
            RequestKind::Stat,
        ).add(RequestKind::Canonicalize).add(RequestKind::ReadLink).add(RequestKind::ReadDir).add(
            RequestKind::ReadFile,
        ).add(RequestKind::AddWorktree);
        r
    }

    /// A server that handles the kinds `handlers` registers and holds no
    /// worktree.
    pub fn with_handlers(handlers: Handlers) -> (r: Server)
        ensures
            r.wf(),
            r.registered() == handlers@,
            r.worktrees() == Seq::<(u64, Seq<char>)>::empty(),
            r.next_worktree_id() == 1,
    {
        let r = Server {
            handlers,
            state: ServerState { worktrees: Vec::new(), next_worktree_id: 1 },
        };
        assert(r.worktrees() =~= Seq::<(u64, Seq<char>)>::empty());
        r
    }

    /// The ids of the worktrees added so far, in the order added.
    pub fn worktree_ids(&self) -> (r: Vec<u64>)
        ensures
            r@ == self.worktrees().map_values(|w: (u64, Seq<char>)| w.0),
    {
        let mut r: Vec<u64> = Vec::new();
        let mut i: usize = 0;
        while i < self.state.worktrees.len()
            invariant
                i <= self.state.worktrees@.len(),
                r@ == self.worktrees().take(i as int).map_values(|w: (u64, Seq<char>)| w.0),
            decreases self.state.worktrees@.len() - i,
        {
            r.push(self.state.worktrees[i].id);
            assert(self.worktrees().take(i as int + 1) =~= self.worktrees().take(i as int).push(
                self.worktrees()[i as int],
            ));
            assert(r@ =~= self.worktrees().take(i as int + 1).map_values(
                |w: (u64, Seq<char>)| w.0,
            ));
            i = i + 1;
        }
        assert(self.worktrees().take(i as int) =~= self.worktrees());
        r
    }

    /// A server that handles every request kind and holds no worktree.
    pub fn new() -> (r: Server)
        ensures
            r.wf(),
            forall|k: RequestKind| r.registered().contains(k),
            r.worktrees() == Seq::<(u64, Seq<char>)>::empty(),
            r.next_worktree_id() == 1,
    {
        Self::with_handlers(Self::build_handlers())
    }
}

impl Server {
    /// Whether a request of `kind` has a handler.
    pub fn handles(&self, kind: RequestKind) -> (r: bool)
        ensures
            r == self.registered().contains(kind),
    {
        self.handlers.get(kind)
    }

    /// The kind `message` is dispatched as.
    fn dispatch_kind(&self, message: &Envelope) -> (r: Option<RequestKind>)
        ensures
            r == dispatched_kind(self.registered(), *message),
    {
        let kind = match &message.payload {
            Some(p) => p.kind(),
            None => None,
        };
        match kind {
            Some(k) => if self.handlers.get(k) {
                Some(k)
            } else {
                None
            },
            None => None,
        }
    }

    /// The filesystem or worktree work that answering `message` needs.
    pub fn call_for(&self, message: &Envelope) -> (r: FsCall)
        ensures
            r == call_of(self.registered(), *message),
    {
        if self.dispatch_kind(message).is_none() {
            return FsCall::Nothing;
        }
        match &message.payload {
            Some(Payload::ReadFile { path }) => FsCall::Load { path: path.clone() },
            Some(Payload::ReadLink { path }) => FsCall::ReadLink { path: path.clone() },
            Some(Payload::Canonicalize { path }) => FsCall::Canonicalize { path: path.clone() },
            Some(Payload::ReadDir { path }) => FsCall::ReadDir { path: path.clone() },
            Some(Payload::Stat { path }) => FsCall::Metadata { path: path.clone() },
            Some(Payload::WriteFile { path, content, line_ending }) => FsCall::Save {
                path: path.clone(),
                content: content.clone(),
                line_ending: line_ending_of(*line_ending),
            },
            Some(Payload::AddWorktree { path }) => FsCall::OpenWorktree { path: path.clone() },
            _ => FsCall::Nothing,
        }
    }

    /// Answers a health check.
    fn ping(response: &mut Response)
        ensures
            final(response)@ == (old(response)@.0, old(response)@.1.push(
                reply_frame(old(response)@.0, Payload::Ack),
            )),
    {
        response.send(Payload::Ack);
    }

    /// Answers a file read with the loaded content.
    fn read_file(response: &mut Response, content: String)
        ensures
            final(response)@ == (old(response)@.0, old(response)@.1.push(
                reply_frame(old(response)@.0, Payload::ReadFileResponse { content }),
            )),
    {
        response.send(Payload::ReadFileResponse { content });
    }

    /// Answers a symlink read with the link's target.
    fn read_link(response: &mut Response, target: String)
        ensures
            final(response)@ == (old(response)@.0, old(response)@.1.push(
                reply_frame(old(response)@.0, Payload::PathResponse { path: target }),
            )),
    {
        response.send(Payload::PathResponse { path: target });
    }

    /// Answers a canonicalization with the canonical path.
    fn canonicalize(response: &mut Response, path: String)
        ensures
            final(response)@ == (old(response)@.0, old(response)@.1.push(
                reply_frame(old(response)@.0, Payload::PathResponse { path }),
            )),
    {
        response.send(Payload::PathResponse { path });
    }

    /// Answers a directory read with every entry's path, or fails with the
    /// first entry's error; nothing is sent on failure.
    fn read_dir(response: &mut Response, items: &Vec<Result<String, String>>) -> (r: Result<
        (),
        String,
    >)
        ensures
            match r {
                Ok(()) => listing_ok(items@) && final(response)@.0 == old(response)@.0
                    && final(response)@.1.len() == old(response)@.1.len() + 1
                    && final(response)@.1.drop_last() == old(response)@.1 && ({
                    let f = final(response)@.1.last();
                    &&& f.id == 0
                    &&& f.original_sender_id is None
                    &&& f.responding_to == Some(old(response)@.0)
                    &&& f.payload matches Some(Payload::ReadDirResponse { paths }) && paths@
                        == listing_paths(items@)
                }),
                Err(e) => final(response)@ == old(response)@ && exists|i: int|
                    first_error_at(items@, i) && e == items@[i]->Err_0,
            },
    {
        let paths = collect_paths(items)?;
        response.send(Payload::ReadDirResponse { paths });
        Ok(())
    }

    /// Answers a metadata query: the metadata when the entry exists; nothing
    /// when it does not, so that only the completion frame concludes it.
    fn stat(response: &mut Response, metadata: Option<StatResponse>)
        ensures
            match metadata {
                Some(m) => final(response)@ == (old(response)@.0, old(response)@.1.push(
                    reply_frame(old(response)@.0, Payload::StatResponse(m)),
                )),
                None => final(response)@ == old(response)@,
            },
    {
        if let Some(m) = metadata {
            response.send(Payload::StatResponse(m));
        }
    }

    /// Records a new worktree rooted at `path` and answers with its id.
    fn add_worktree(&mut self, path: String, response: &mut Response) -> (r: Result<(), String>)
        requires
            old(self).wf(),
        ensures
            final(self).wf(),
            final(self).registered() == old(self).registered(),
            old(self).next_worktree_id() < u64::MAX ==> {
                &&& r is Ok
                &&& final(self).worktrees() == add_step(old(self).worktrees(), path@)
                &&& final(response)@ == (old(response)@.0, old(response)@.1.push(
                    reply_frame(
                        old(response)@.0,
                        Payload::AddWorktreeResponse { worktree_id: old(self).next_worktree_id() },
                    ),
                ))
            },
            old(self).next_worktree_id() == u64::MAX ==> {
                &&& final(self).worktrees() == old(self).worktrees()
                &&& final(response)@ == old(response)@
                &&& r matches Err(e) && e@ == exhausted_message()
            },
    {
        let id = self.state.next_worktree_id;
        if id == u64::MAX {
            return Err("worktree ids exhausted".to_owned());
        }
        self.state.worktrees.push(WorktreeHandle { id, path });
        self.state.next_worktree_id = id + 1;
        assert(self.worktrees() =~= add_step(old(self).worktrees(), path@));
        response.send(Payload::AddWorktreeResponse { worktree_id: id });
        Ok(())
    }
}

impl Server {
    /// Dispatches one incoming request, given what came of the work that
    /// [`Server::call_for`] named for it, and returns the frames that conclude
    /// it, all tagged with the request's id: the reply or error its handler
    /// sent, if any, then the contentless completion frame, always last and
    /// only once. A request whose kind has no handler is answered with an
    /// error; so is one whose work failed, with the failure's text.
    pub fn handle_message(&mut self, message: &Envelope, outcome: FsOutcome) -> (r: Vec<Envelope>)
        requires
            old(self).wf(),
            fits_spec(call_of(old(self).registered(), *message), outcome),
        ensures
            final(self).wf(),
            final(self).registered() == old(self).registered(),
            r@.len() >= 1,
            r@.last() == marker_frame(message.id),
            forall|i: int| 0 <= i < r@.len() ==> (#[trigger] r@[i]).responding_to == Some(message.id),
            answers(
                dispatched_kind(old(self).registered(), *message),
                outcome,
                message.id,
                old(self).next_worktree_id(),
                r@.drop_last(),
            ),
            final(self).worktrees() == if adds_worktree(
                dispatched_kind(old(self).registered(), *message),
                outcome,
                old(self).next_worktree_id(),
            ) {
                add_step(old(self).worktrees(), worktree_path(*message))
            } else {
                old(self).worktrees()
            },
    {
        let ghost out = outcome;
        let mut response = Response::new(message.id);
        let kind = self.dispatch_kind(message);
        match kind {
            None => {
                response.send_error("unhandled request type".to_owned());
            },
            Some(k) => {
                let result: Result<(), String> = match outcome {
                    FsOutcome::Failed(e) => Err(e),
                    FsOutcome::Nothing => {
                        Self::ping(&mut response);
                        Ok(())
                    },
                    FsOutcome::Content(c) => {
                        Self::read_file(&mut response, c);
                        Ok(())
                    },
                    FsOutcome::Path(p) => {
                        if k == RequestKind::ReadLink {
                            Self::read_link(&mut response, p);
                        } else {
                            Self::canonicalize(&mut response, p);
                        }
                        Ok(())
                    },
                    FsOutcome::Entries(items) => Self::read_dir(&mut response, &items),
                    FsOutcome::Metadata(m) => {
                        Self::stat(&mut response, m);
                        Ok(())
                    },
                    FsOutcome::Saved => Ok(()),
                    FsOutcome::Opened => {
                        let path = match &message.payload {
                            Some(Payload::AddWorktree { path }) => path.clone(),
                            _ => String::new(),
                        };
                        self.add_worktree(path, &mut response)
                    },
                };
                let ghost res = result;
                if let Err(e) = result {
                    response.send_error(e);
                }
                proof {
                    if let FsOutcome::Entries(items) = out {
                        if !listing_ok(items@) {
                            let f = response@.1[0];
                            let e = res->Err_0;
                            let i = choose|i: int| first_error_at(items@, i) && e == items@[i]->Err_0;
                            assert(first_error_at(items@, i) && is_error_frame(f, message.id, items@[i]->Err_0@));
                        }
                    }
                }
            },
        }
        response.finish()
    }
}

/// The worktree list of a fresh server after successful add-worktree requests
/// for `paths`, handled in that order.
pub open spec fn added(paths: Seq<Seq<char>>) -> Seq<(u64, Seq<char>)>
    decreases paths.len(),
{
    if paths.len() == 0 {
        Seq::empty()
    } else {
        add_step(added(paths.drop_last()), paths.last())
    }
}

/// Every dispatched request, whether it had a handler or not and whether or
/// not its handler sent a reply of its own, is concluded by frames that are
/// all tagged with its id: at most one reply or error, then the completion
/// frame, last and sent exactly once.
pub proof fn lemma_concluded_by_its_id(
    kind: Option<RequestKind>,
    o: FsOutcome,
    id: u32,
    worktree_id: u64,
    sent: Seq<Envelope>,
)
    requires
        answers(kind, o, id, worktree_id, sent),
    ensures
        concluded(id, sent).len() <= 2,
        concluded(id, sent).last() == marker_frame(id),
        forall|i: int|
            0 <= i < concluded(id, sent).len() ==> (#[trigger] concluded(id, sent)[i]).responding_to
                == Some(id),
        forall|i: int|
            0 <= i < concluded(id, sent).len() - 1 ==> (#[trigger] concluded(id, sent)[i]).payload is Some,
{
    let r = concluded(id, sent);
    assert forall|i: int| 0 <= i < r.len() implies (#[trigger] r[i]).responding_to == Some(id) by {
        if i < sent.len() {
            assert(r[i] == sent[i]);
        }
    }
    assert forall|i: int| 0 <= i < r.len() - 1 implies (#[trigger] r[i]).payload is Some by {
        assert(r[i] == sent[i]);
    }
}

/// A request whose kind has no handler, or whose payload is no request, is
/// answered with the error "unhandled request type", tagged with its id, and
/// nothing else before its completion frame.
pub proof fn lemma_unknown_kind(
    registered: Set<RequestKind>,
    m: Envelope,
    o: FsOutcome,
    worktree_id: u64,
    sent: Seq<Envelope>,
)
    requires
        envelope_kind(m) matches Some(k) ==> !registered.contains(k),
        answers(dispatched_kind(registered, m), o, m.id, worktree_id, sent),
    ensures
        sent.len() == 1,
        is_error_frame(sent[0], m.id, unhandled_message()),
        concluded(m.id, sent) == seq![sent[0], marker_frame(m.id)],
{
    assert(concluded(m.id, sent) =~= seq![sent[0], marker_frame(m.id)]);
}

/// A metadata query on a path that does not exist is concluded by the
/// contentless completion frame alone, the same for every such query but for
/// its id; and a metadata query is never answered with a payload other than
/// metadata or an error, nor with more than one.
pub proof fn lemma_stat_replies(
    registered: Set<RequestKind>,
    m: Envelope,
    o: FsOutcome,
    worktree_id: u64,
    sent: Seq<Envelope>,
)
    requires
        dispatched_kind(registered, m) == Some(RequestKind::Stat),
        fits_spec(call_of(registered, m), o),
        answers(dispatched_kind(registered, m), o, m.id, worktree_id, sent),
    ensures
        o matches FsOutcome::Metadata(None) ==> concluded(m.id, sent) == seq![marker_frame(m.id)],
        sent.len() <= 1,
        forall|i: int|
            0 <= i < sent.len() ==> match (#[trigger] sent[i]).payload {
                Some(Payload::StatResponse(_)) => true,
                Some(Payload::Error { .. }) => true,
                _ => false,
            },
{
    if o matches FsOutcome::Metadata(None) {
        assert(concluded(m.id, sent) =~= seq![marker_frame(m.id)]);
    }
}

/// Adding worktrees for `paths` one after another, in whatever order they
/// were interleaved, leaves exactly one worktree per request, in that order,
/// with ids 1, 2, ... so that no two of them share an id. Each further
/// request extends the list by the step that `Server::handle_message` takes.
pub proof fn lemma_added_worktrees(paths: Seq<Seq<char>>)
    requires
        paths.len() < u64::MAX,
    ensures
        added(paths).len() == paths.len(),
        forall|i: int| 0 <= i < paths.len() ==> #[trigger] added(paths)[i] == ((i + 1) as u64, paths[i]),
        forall|i: int, j: int|
            0 <= i < j < paths.len() ==> added(paths)[i].0 != added(paths)[j].0,
        forall|p: Seq<char>| #[trigger] added(paths.push(p)) == add_step(added(paths), p),
    decreases paths.len(),
{
    assert forall|p: Seq<char>| #[trigger] added(paths.push(p)) == add_step(added(paths), p) by {
        assert(paths.push(p).drop_last() =~= paths);
    }
    if paths.len() > 0 {
        lemma_added_worktrees(paths.drop_last());
        let prev = added(paths.drop_last());
        assert forall|i: int| 0 <= i < paths.len() implies #[trigger] added(paths)[i] == (
        (i + 1) as u64, paths[i]) by {
            if i < paths.len() - 1 {
                assert(added(paths)[i] == prev[i]);
                assert(paths.drop_last()[i] == paths[i]);
            }
        }
        assert forall|i: int, j: int| 0 <= i < j < paths.len() implies added(paths)[i].0 != added(
            paths,
        )[j].0 by {
            assert(added(paths)[i] == ((i + 1) as u64, paths[i]));
            assert(added(paths)[j] == ((j + 1) as u64, paths[j]));
        }
    }
}

/// A Unix write of `content` to `path` asks the filesystem to save exactly
/// that content at that path with Unix line endings; a later read of `path`
/// asks to load that same path and is concluded by exactly what was loaded,
/// then the completion frame.
pub proof fn lemma_write_then_read_calls(
    registered: Set<RequestKind>,
    write: Envelope,
    read: Envelope,
    loaded: String,
    worktree_id: u64,
    sent: Seq<Envelope>,
)
    requires
        registered.contains(RequestKind::WriteFile),
        registered.contains(RequestKind::ReadFile),
        write.payload matches Some(Payload::WriteFile { line_ending, .. }) && line_ending
            == LINE_ENDING_UNIX,
        read.payload matches Some(Payload::ReadFile { path }) && path
            == write.payload->Some_0->WriteFile_path,
        answers(
            dispatched_kind(registered, read),
            FsOutcome::Content(loaded),
            read.id,
            worktree_id,
            sent,
        ),
    ensures
        call_of(registered, write) == (FsCall::Save {
            path: write.payload->Some_0->WriteFile_path,
            content: write.payload->Some_0->WriteFile_content,
            line_ending: LineEnding::Unix,
        }),
        call_of(registered, read) == (FsCall::Load { path: write.payload->Some_0->WriteFile_path }),
        concluded(read.id, sent) == seq![
            reply_frame(read.id, Payload::ReadFileResponse { content: loaded }),
            marker_frame(read.id),
        ],
{
}

} // verus!
