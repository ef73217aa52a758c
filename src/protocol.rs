use vstd::prelude::*;

verus! {

/// Wire value of the Unix line-ending convention in a write request.
pub const LINE_ENDING_UNIX: i32 = 0;

/// Wire value of the Windows line-ending convention in a write request.
pub const LINE_ENDING_WINDOWS: i32 = 1;

/// Metadata of a filesystem entry, as carried by a stat reply.
pub struct StatResponse {
    pub is_dir: bool,
    pub is_symlink: bool,
    /// Modification time in milliseconds since the Unix epoch.
    pub mtime: u64,
    pub inode: u64,
}

/// One change notification of a worktree, pushed to the peer unsolicited.
pub struct UpdateWorktree {
    pub worktree_id: u64,
    pub updated_paths: Vec<String>,
    pub removed_entry_ids: Vec<u64>,
}

/// The payload of an envelope: a request, a response, a push or an error.
pub enum Payload {
    Ping,
    Ack,
    WriteFile { path: String, content: String, line_ending: i32 },
    Stat { path: String },
    StatResponse(StatResponse),
    Canonicalize { path: String },
    ReadLink { path: String },
    PathResponse { path: String },
    ReadDir { path: String },
    ReadDirResponse { paths: Vec<String> },
    ReadFile { path: String },
    ReadFileResponse { content: String },
    AddWorktree { path: String },
    AddWorktreeResponse { worktree_id: u64 },
    UpdateWorktree(UpdateWorktree),
    Error { code: i32, tags: Vec<String>, message: String },
}

/// The unit of the wire protocol.
pub struct Envelope {
    pub id: u32,
    pub original_sender_id: Option<u32>,
    pub payload: Option<Payload>,
    pub responding_to: Option<u32>,
}

/// The kinds of payload that are requests.
#[derive(Clone, Copy, PartialEq, Eq, Structural)]
pub enum RequestKind {
    Ping,
    WriteFile,
    Stat,
    Canonicalize,
    ReadLink,
    ReadDir,
    ReadFile,
    AddWorktree,
}

/// The request kind of a payload, or `None` for a payload that is no request.
pub open spec fn kind_of(p: Payload) -> Option<RequestKind> {
    match p {
        Payload::Ping => Some(RequestKind::Ping),
        Payload::WriteFile { .. } => Some(RequestKind::WriteFile),
        Payload::Stat { .. } => Some(RequestKind::Stat),
        Payload::Canonicalize { .. } => Some(RequestKind::Canonicalize),
        Payload::ReadLink { .. } => Some(RequestKind::ReadLink),
        Payload::ReadDir { .. } => Some(RequestKind::ReadDir),
        Payload::ReadFile { .. } => Some(RequestKind::ReadFile),
        Payload::AddWorktree { .. } => Some(RequestKind::AddWorktree),
        _ => None,
    }
}

/// The request kind of an envelope's payload, if it carries a request.
pub open spec fn envelope_kind(e: Envelope) -> Option<RequestKind> {
    match e.payload {
        Some(p) => kind_of(p),
        None => None,
    }
}

impl Payload {
    /// The request kind of this payload, or `None` when it is no request.
    pub fn kind(&self) -> (r: Option<RequestKind>)
        ensures
            r == kind_of(*self),
    {
        match self {
            Payload::Ping => Some(RequestKind::Ping),
            Payload::WriteFile { .. } => Some(RequestKind::WriteFile),
            Payload::Stat { .. } => Some(RequestKind::Stat),
            Payload::Canonicalize { .. } => Some(RequestKind::Canonicalize),
            Payload::ReadLink { .. } => Some(RequestKind::ReadLink),
            Payload::ReadDir { .. } => Some(RequestKind::ReadDir),
            Payload::ReadFile { .. } => Some(RequestKind::ReadFile),
            Payload::AddWorktree { .. } => Some(RequestKind::AddWorktree),
            _ => None,
        }
    }
}

/// A frame that concludes request `id` with `payload`.
pub open spec fn reply_frame(id: u32, payload: Payload) -> Envelope {
    Envelope { id: 0, original_sender_id: None, payload: Some(payload), responding_to: Some(id) }
}

/// Whether `e` concludes request `id` with an error of code 0, no tags, and
/// the text `message`.
pub open spec fn is_error_frame(e: Envelope, id: u32, message: Seq<char>) -> bool {
    &&& e.id == 0
    &&& e.original_sender_id is None
    &&& e.responding_to == Some(id)
    &&& e.payload matches Some(Payload::Error { code, tags, message: m }) && code == 0
        && tags@.len() == 0 && m@ == message
}

/// The contentless frame that concludes request `id`.
pub open spec fn marker_frame(id: u32) -> Envelope {
    Envelope { id: 0, original_sender_id: None, payload: None, responding_to: Some(id) }
}

/// The unsolicited frame that pushes a worktree update to the peer.
pub open spec fn update_frame(u: UpdateWorktree) -> Envelope {
    Envelope {
        id: 0,
        original_sender_id: None,
        payload: Some(Payload::UpdateWorktree(u)),
        responding_to: None,
    }
}

/// Wraps a worktree update into the unsolicited envelope that carries it.
pub fn update_envelope(update: UpdateWorktree) -> (r: Envelope)
    ensures
        r == update_frame(update),
{
    Envelope {
        id: 0,
        original_sender_id: None,
        payload: Some(Payload::UpdateWorktree(update)),
        responding_to: None,
    }
}

/// Turns a worktree's change notifications into the unsolicited envelopes
/// that carry them, one per notification and in the order they were emitted.
pub fn forward_updates(updates: Vec<UpdateWorktree>) -> (r: Vec<Envelope>)
    ensures
        r@ == updates@.map_values(|u: UpdateWorktree| update_frame(u)),
{
    let mut rest = updates;
    let mut out: Vec<Envelope> = Vec::new();
    let ghost all = updates@;
    while rest.len() > 0
        invariant
            all == updates@,
            out@.len() + rest@.len() == all.len(),
            rest@ == all.skip(out@.len() as int),
            out@ == all.take(out@.len() as int).map_values(|u: UpdateWorktree| update_frame(u)),
        decreases rest@.len(),
    {
        let ghost n = out@.len() as int;
        let u = rest.remove(0);
        out.push(update_envelope(u));
        assert(all.take(n + 1) =~= all.take(n).push(all[n]));
        assert(all.skip(n + 1) =~= all.skip(n).drop_first());
        assert(out@ =~= all.take(n + 1).map_values(|u: UpdateWorktree| update_frame(u)));
    }
    assert(all.take(all.len() as int) =~= all);
    out
}

} // verus!
