//! The decisions of the serving side: the dispatcher that admits display
//! requests arriving on the control socket, and the worker that loads the
//! admitted image.
//!
//! The dispatcher lets at most one request be in flight. While one is, every
//! other request is only acknowledged, and the sender must retry. A request
//! equal to the last one that was shown is answered at once, without loading
//! the image again.

use vstd::prelude::*;
use crate::packet::{decoded, encoding, PacketModel, RivPacket, CODE_ACK, CODE_DISPLAY, CODE_ERR, CODE_OK};

verus! {

/// What the dispatcher remembers.
pub struct DispatcherModel {
    /// A request is with the worker.
    pub busy: bool,
    /// Color and name of the last request that was shown.
    pub last: Option<(u32, Seq<char>)>,
}

/// The display request that a datagram holds, if it is one.
pub open spec fn request_of(data: Seq<u8>) -> Option<PacketModel> {
    match decoded(data) {
        Ok(p) => if p.code == CODE_DISPLAY {
            Some(p)
        } else {
            None
        },
        Err(_) => None,
    }
}

/// `p` asks for what was shown last.
pub open spec fn is_repeat(s: DispatcherModel, p: PacketModel) -> bool {
    s.last == Some((p.color, p.name))
}

/// The next state, the request handed to the worker and the reply sent back,
/// on a datagram.
pub open spec fn admission(s: DispatcherModel, data: Seq<u8>) -> (
    DispatcherModel,
    Option<PacketModel>,
    Option<Seq<u8>>,
) {
    match request_of(data) {
        None => (s, None, None),
        Some(p) => if s.busy {
            (s, None, Some(encoding(CODE_ACK, p.color, p.name)))
        } else if is_repeat(s, p) {
            (s, None, Some(encoding(CODE_OK, p.color, p.name)))
        } else {
            (DispatcherModel { busy: true, ..s }, Some(p), Some(encoding(CODE_ACK, p.color, p.name)))
        },
    }
}

/// The next state when the worker hands back the finished request `p`.
pub open spec fn completion(s: DispatcherModel, p: PacketModel) -> DispatcherModel {
    DispatcherModel {
        busy: false,
        last: if p.code == CODE_OK {
            Some((p.color, p.name))
        } else {
            s.last
        },
    }
}

/// What the dispatcher does with one datagram.
pub struct Admission {
    /// The request to hand to the worker.
    pub dispatch: Option<RivPacket>,
    /// The bytes to send back to the sender.
    pub reply: Option<Vec<u8>>,
}

impl Admission {
    /// The request handed to the worker, as a model.
    pub open spec fn dispatched(&self) -> Option<PacketModel> {
        match self.dispatch {
            Some(p) => Some(p@),
            None => None,
        }
    }

    /// The bytes sent back, if any.
    pub open spec fn replied(&self) -> Option<Seq<u8>> {
        match self.reply {
            Some(v) => Some(v@),
            None => None,
        }
    }
}

/// The admission state of the serving side, owned by the thread that owns the
/// socket.
pub struct Dispatcher {
    busy: bool,
    last: Option<(u32, String)>,
}

impl View for Dispatcher {
    type V = DispatcherModel;

    closed spec fn view(&self) -> DispatcherModel {
        DispatcherModel {
            busy: self.busy,
            last: match self.last {
                Some((c, n)) => Some((c, n@)),
                None => None,
            },
        }
    }
}

impl Dispatcher {
    /// Idle, with nothing shown yet.
    pub fn new() -> (r: Dispatcher)
        ensures
            r@ == (DispatcherModel { busy: false, last: None }),
    {
        Dispatcher { busy: false, last: None }
    }

    /// A request is with the worker.
    pub fn is_busy(&self) -> (r: bool)
        ensures
            r == self@.busy,
    {
        self.busy
    }

    fn repeats(&self, p: &RivPacket) -> (r: bool)
        ensures
            r == is_repeat(self@, p@),
    {
        match &self.last {
            Some((c, n)) => {
                if *c != p.color() {
                    return false;
                }
                let name = p.name();
                let owned = name.to_owned();
                let same = *n == owned;
                proof {
                    if same {
                        assert(self@.last == Some((p@.color, p@.name)));
                    }
                }
                same
            },
            None => false,
        }
    }

    /// Admits, answers or drops one datagram from the control socket.
    pub fn on_datagram(&mut self, data: &[u8]) -> (r: Admission)
        ensures
            (final(self)@, r.dispatched(), r.replied()) == admission(old(self)@, data@),
    {
        let mut packet = match RivPacket::from(data) {
            Ok(p) => p,
            Err(_) => return Admission { dispatch: None, reply: None },
        };
        if !packet.is_display() {
            return Admission { dispatch: None, reply: None };
        }
        if self.busy {
            packet.set_code(CODE_ACK);
            return Admission { dispatch: None, reply: Some(packet.into_inner()) };
        }
        if self.repeats(&packet) {
            packet.set_code(CODE_OK);
            return Admission { dispatch: None, reply: Some(packet.into_inner()) };
        }
        packet.set_code(CODE_ACK);
        let reply = packet.to_bytes();
        packet.set_code(CODE_DISPLAY);
        self.busy = true;
        Admission { dispatch: Some(packet), reply: Some(reply) }
    }

    /// Takes back the finished request from the worker; returns the bytes to
    /// send to the one who asked.
    pub fn on_completion(&mut self, packet: RivPacket) -> (r: Vec<u8>)
        ensures
            final(self)@ == completion(old(self)@, packet@),
            r@ == packet@.bytes(),
    {
        if packet.is_ok() {
            let name = packet.name();
            self.last = Some((packet.color(), name.to_owned()));
        }
        self.busy = false;
        packet.into_inner()
    }
}

/// What an empty image name asks for. The protocol has been used both ways,
/// so the serving side states which one it follows.
#[derive(PartialEq, Eq, Structural, Clone, Copy, Debug)]
pub enum EmptyName {
    /// An empty name clears the window to the background color.
    Clear,
    /// An empty name is refused with an error reply.
    Refuse,
}

/// What the worker does with an admitted request.
#[derive(PartialEq, Eq, Structural, Clone, Copy, Debug)]
pub enum Job {
    /// Show the background color alone.
    Clear,
    /// Load the named image and show it.
    Load,
    /// Answer with an error at once.
    Refuse,
}

/// The job for a request named `name` under `mode`.
pub open spec fn job_for(name: Seq<char>, mode: EmptyName) -> Job {
    if name.len() != 0 {
        Job::Load
    } else if mode == EmptyName::Clear {
        Job::Clear
    } else {
        Job::Refuse
    }
}

/// Decides what the worker does with an admitted request.
pub fn plan_job(request: &RivPacket, mode: EmptyName) -> (r: Job)
    ensures
        r == job_for(request@.name, mode),
{
    if !request.name().is_empty() {
        Job::Load
    } else {
        match mode {
            EmptyName::Clear => Job::Clear,
            EmptyName::Refuse => Job::Refuse,
        }
    }
}

/// Turns the admitted request into its final reply: `ok` when something was
/// shown, `error` otherwise.
pub fn finish_job(request: &mut RivPacket, shown: bool)
    ensures
        final(request)@ == (PacketModel {
            code: if shown {
                CODE_OK
            } else {
                CODE_ERR
            },
            ..old(request)@
        }),
{
    if shown {
        request.set_code(CODE_OK);
    } else {
        request.set_code(CODE_ERR);
    }
}

/// A request that repeats one the worker has just shown with success is
/// answered `ok` by the dispatcher itself and is not handed to the worker
/// again; the first one, when the dispatcher was idle and had not shown it
/// yet, went to the worker.
pub proof fn lemma_repeat_is_answered_ok(s: DispatcherModel, data: Seq<u8>)
    requires
        request_of(data) is Some,
    ensures
        ({
            let p = request_of(data)->0;
            let first = admission(s, data);
            let s2 = completion(first.0, PacketModel { code: CODE_OK, ..p });
            &&& (!s.busy && !is_repeat(s, p) ==> first.1 == Some(p))
            &&& admission(s2, data) == (s2, None::<PacketModel>, Some(
                encoding(CODE_OK, p.color, p.name),
            ))
        }),
{
}

/// While a request is with the worker, every other display request is only
/// acknowledged: nothing more is dispatched and the state stays as it is.
pub proof fn lemma_busy_only_acknowledges(s: DispatcherModel, first: Seq<u8>, next: Seq<u8>)
    requires
        !s.busy,
        request_of(first) is Some,
        !is_repeat(s, request_of(first)->0),
        request_of(next) is Some,
    ensures
        ({
            let s1 = admission(s, first).0;
            let q = request_of(next)->0;
            &&& s1.busy
            &&& admission(s1, next) == (s1, None::<PacketModel>, Some(
                encoding(CODE_ACK, q.color, q.name),
            ))
        }),
{
}

/// Only a completion frees a busy dispatcher: any datagram leaves it as it is.
pub proof fn lemma_busy_holds_until_completion(s: DispatcherModel, data: Seq<u8>)
    requires
        s.busy,
    ensures
        admission(s, data).0 == s,
        admission(s, data).1 is None,
{
}

} // verus!
