use vstd::prelude::*;
use crate::protocol::{Envelope, Payload, reply_frame, is_error_frame, marker_frame};

verus! {

/// The correlator of one in-flight request: the frames sent for it, in the
/// order they were sent. Its frames leave only through [`Response::finish`],
/// which always ends them with the contentless completion frame, so that
/// every request is concluded, whatever its handler sent.
pub struct Response {
    id: u32,
    frames: Vec<Envelope>,
}

impl View for Response {
    /// The request id and the frames sent so far.
    type V = (u32, Seq<Envelope>);

    closed spec fn view(&self) -> (u32, Seq<Envelope>) {
        (self.id, self.frames@)
    }
}

/// The frames that conclude a request, given those a handler sent for it:
/// those frames, then the completion frame.
pub open spec fn concluded(id: u32, sent: Seq<Envelope>) -> Seq<Envelope> {
    sent.push(marker_frame(id))
}

impl Response {
    /// A correlator for request `id` with nothing sent yet.
    pub fn new(id: u32) -> (r: Response)
        ensures
            r@ == (id, Seq::<Envelope>::empty()),
    {
        Response { id, frames: Vec::new() }
    }

    /// The id of the request this correlator concludes.
    pub fn id(&self) -> (r: u32)
        ensures
            r == self@.0,
    {
        self.id
    }

    /// Sends `payload` as a reply to the request.
    pub fn send(&mut self, payload: Payload)
        ensures
            final(self)@ == (old(self)@.0, old(self)@.1.push(reply_frame(old(self)@.0, payload))),
    {
        let frame = Envelope {
            id: 0,
            original_sender_id: None,
            payload: Some(payload),
            responding_to: Some(self.id),
        };
        self.frames.push(frame);
    }

    /// Sends an error with text `message` (code 0, no tags) as the reply.
    pub fn send_error(&mut self, message: String)
        ensures
            final(self)@.0 == old(self)@.0,
            final(self)@.1.len() == old(self)@.1.len() + 1,
            final(self)@.1.drop_last() == old(self)@.1,
            is_error_frame(final(self)@.1.last(), old(self)@.0, message@),
    {
        let frame = Envelope {
            id: 0,
            original_sender_id: None,
            payload: Some(Payload::Error { code: 0, tags: Vec::new(), message }),
            responding_to: Some(self.id),
        };
        self.frames.push(frame);
    }

    /// Ends the correlator's life and hands out the frames to transmit: those
    /// sent, in order, followed by the completion frame.
    pub fn finish(self) -> (r: Vec<Envelope>)
        ensures
            r@ == concluded(self@.0, self@.1),
    {
        let mut frames = self.frames;
        frames.push(Envelope {
            id: 0,
            original_sender_id: None,
            payload: None,
            responding_to: Some(self.id),
        });
        frames
    }
}

} // verus!
