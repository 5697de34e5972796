use vstd::prelude::*;

verus! {

use crate::error::HciError;
use crate::event::{spec_read_event, Event, EventBody, EVT_CMD_COMPLETE, EVT_CMD_STATUS};
use crate::filter::HciFilter;
use crate::io::{Reader, WriteAs, WriteTo, Writer};

/// Packet-type prefix of an outgoing command packet.
pub const HCI_COMMAND_PKT: u8 = 0x01;

/// Packet type of incoming event packets.
pub const HCI_EVENT_PKT: u8 = 0x04;

/// Command group of the host-control commands.
pub const OGF_HOST_CTL: u16 = 0x03;

/// Feature identifier of the write-device-class command.
pub const OCF_WRITE_CLASS_OF_DEV: u16 = 0x0024;

/// How many receive attempts one request makes before giving up.
pub const ATTEMPT_CAP: u8 = 10;

/// Fixed amount taken off the remaining timeout after each successful
/// readiness wait, whatever the wait actually lasted.
pub const TIMEOUT_STEP: i32 = 10;

/// An opcode packed from its group and feature fields: the feature masked to
/// its low ten bits, the group shifted above them.
pub open spec fn spec_opcode_pack(ogf: u16, ocf: u16) -> u16 {
    (ocf & 0x03ff) | (ogf << 10)
}

/// Construct an opcode from a group and a feature field.
pub fn cmd_opcode_pack(ogf: u16, ocf: u16) -> (r: u16)
    ensures
        r == spec_opcode_pack(ogf, ocf),
{
    (ocf & 0x03ff) | (ogf << 10)
}

/// Distinct in-range group/feature pairs never pack to the same opcode:
/// packing is injective for groups up to 63 and features up to 1023.
pub proof fn lemma_opcode_pack_injective(g1: u16, f1: u16, g2: u16, f2: u16)
    requires
        g1 <= 63,
        f1 <= 1023,
        g2 <= 63,
        f2 <= 1023,
        spec_opcode_pack(g1, f1) == spec_opcode_pack(g2, f2),
    ensures
        g1 == g2,
        f1 == f2,
{
    assert(g1 <= 63 && f1 <= 1023 && g2 <= 63 && f2 <= 1023
        && ((f1 & 0x03ff) | (g1 << 10)) == ((f2 & 0x03ff) | (g2 << 10))
        ==> g1 == g2 && f1 == f2) by (bit_vector);
}

/// Feature bits beyond the low ten are masked off before packing: a feature
/// packs exactly as its low ten bits do.
pub proof fn lemma_opcode_pack_masks_feature(ogf: u16, ocf: u16)
    ensures
        spec_opcode_pack(ogf, ocf) == spec_opcode_pack(ogf, ocf & 0x03ff),
{
    assert((ocf & 0x03ff) | (ogf << 10) == ((ocf & 0x03ff) & 0x03ff) | (ogf << 10))
        by (bit_vector);
}

/// Header of an outgoing command: the packed opcode and the length of the
/// parameter block that follows.
#[derive(Clone, Copy, Debug, PartialEq, Eq, Structural)]
pub struct CommandHeader {
    pub opcode: u16,
    pub plen: u8,
}

impl WriteTo for CommandHeader {
    open spec fn encoding(self) -> Seq<u8> {
        self.opcode.encoding() + self.plen.encoding()
    }

    fn write_to(self, w: &mut Writer) -> (res: Result<usize, HciError>) {
        let n0: usize = match w.write_as(self.opcode) {
            Ok(n) => n,
            Err(e) => {
                proof {
                    assert(false);
                }
                return Err(e);
            },
        };
        let n1: usize = match w.write_as(self.plen) {
            Ok(n) => n,
            Err(e) => {
                proof {
                    assert(false);
                }
                return Err(e);
            },
        };
        proof {
            assert(w@ =~= old(w)@ + self.encoding());
        }
        Ok(n0 + n1)
    }
}

/// The bytes of one framed command packet: the command packet-type prefix,
/// the little-endian opcode, the parameter length, then the parameters.
pub open spec fn spec_command_packet(opcode: u16, param: Seq<u8>) -> Seq<u8> {
    seq![HCI_COMMAND_PKT] + opcode.encoding() + seq![param.len() as u8] + param
}

/// Frame one command packet from its group, feature and parameter block.
pub fn command_packet(ogf: u16, ocf: u16, param: &[u8]) -> (v: Vec<u8>)
    requires
        param@.len() <= 255,
    ensures
        v@ == spec_command_packet(spec_opcode_pack(ogf, ocf), param@),
{
    let opcode = cmd_opcode_pack(ogf, ocf);
    let mut w = Writer::new();
    let _ = w.write_as(HCI_COMMAND_PKT);
    let _ = w.write_as(CommandHeader { opcode, plen: param.len() as u8 });
    let mut v = w.into_vec();
    let ghost base = v@;
    let mut i: usize = 0;
    while i < param.len()
        invariant
            i <= param@.len(),
            v@ == base + param@.subrange(0, i as int),
        decreases param@.len() - i,
    {
        v.push(param[i]);
        proof {
            assert(v@ =~= base + param@.subrange(0, i + 1));
        }
        i = i + 1;
    }
    proof {
        assert(param@.subrange(0, param@.len() as int) =~= param@);
        assert(v@ =~= spec_command_packet(spec_opcode_pack(ogf, ocf), param@));
    }
    v
}

/// The narrowed filter one request installs: event packets only, the two
/// command-response event codes, and the request's own opcode.
pub open spec fn spec_request_filter(opcode: u16) -> HciFilter {
    HciFilter {
        type_mask: 1u32 << (HCI_EVENT_PKT as u32),
        event_mask: (1u64 << (EVT_CMD_STATUS as u64)) | (1u64 << (EVT_CMD_COMPLETE as u64)),
        opcode,
    }
}

/// Build the narrowed filter for a request on `opcode`.
pub fn request_filter(opcode: u16) -> (f: HciFilter)
    ensures
        f == spec_request_filter(opcode),
{
    let mut f = HciFilter::default();
    let _ = f.set_type(HCI_EVENT_PKT);
    let _ = f.set_event(EVT_CMD_STATUS);
    let _ = f.set_event(EVT_CMD_COMPLETE);
    f.set_opcode(opcode);
    proof {
        assert(0u32 | (1u32 << (HCI_EVENT_PKT as u32)) == 1u32 << (HCI_EVENT_PKT as u32))
            by (bit_vector);
        assert((0u64 | (1u64 << (EVT_CMD_STATUS as u64))) | (1u64 << (EVT_CMD_COMPLETE as u64))
            == (1u64 << (EVT_CMD_STATUS as u64)) | (1u64 << (EVT_CMD_COMPLETE as u64)))
            by (bit_vector);
    }
    f
}

/// Where a request stands between the outside calls its driver makes for it.
#[derive(Clone, Copy, Debug, PartialEq, Eq, Structural)]
pub enum Phase {
    /// The current kernel filter is being fetched, to be restored later.
    FetchFilter,
    /// The narrowed filter is being installed.
    InstallFilter,
    /// The framed command packet is being sent.
    SendCommand,
    /// A readiness wait on the socket is outstanding.
    Waiting,
    /// A receive is outstanding.
    Receiving,
    /// The saved filter is being put back; the outcome is already decided.
    Restore,
    /// The request is over; the outcome can be taken.
    Done,
}

/// What the driver must do next for a request.
pub enum Action {
    /// Fetch the socket's current event filter and report it back.
    GetFilter,
    /// Install this event filter on the socket.
    SetFilter(HciFilter),
    /// Send these bytes as one packet.
    Send(Vec<u8>),
    /// Wait until the socket is readable, up to this many time units.
    Wait(i32),
    /// Receive one packet and report its bytes back.
    Recv,
    /// Nothing: the request is over.
    Finish,
}

/// The mathematical value of an `Action`.
#[verifier::ext_equal]
pub ghost enum ActionModel {
    GetFilter,
    SetFilter(HciFilter),
    Send(Seq<u8>),
    Wait(int),
    Recv,
    Finish,
}

impl View for Action {
    type V = ActionModel;

    open spec fn view(&self) -> ActionModel {
        match self {
            Action::GetFilter => ActionModel::GetFilter,
            Action::SetFilter(f) => ActionModel::SetFilter(*f),
            Action::Send(v) => ActionModel::Send(v@),
            Action::Wait(t) => ActionModel::Wait(*t as int),
            Action::Recv => ActionModel::Recv,
            Action::Finish => ActionModel::Finish,
        }
    }
}

/// What the driver reports back after performing an action.
pub enum Input {
    /// The filter a `GetFilter` action fetched.
    Filter(HciFilter),
    /// A `SetFilter` or `Send` action succeeded.
    Acked,
    /// A `Wait` action found the socket readable.
    Ready,
    /// A `Wait` action was interrupted by a recoverable condition (resource
    /// temporarily unavailable, or a signal): the wait is retried.
    Interrupted,
    /// A `Wait` action elapsed without the socket becoming readable.
    TimedOut,
    /// The bytes a `Recv` action produced.
    Packet(Vec<u8>),
    /// The action failed with this error.
    Failed(HciError),
}

/// The mathematical value of an `Input`.
#[verifier::ext_equal]
pub ghost enum InputModel {
    Filter(HciFilter),
    Acked,
    Ready,
    Interrupted,
    TimedOut,
    Packet(Seq<u8>),
    Failed(HciError),
}

impl View for Input {
    type V = InputModel;

    open spec fn view(&self) -> InputModel {
        match self {
            Input::Filter(f) => InputModel::Filter(*f),
            Input::Acked => InputModel::Acked,
            Input::Ready => InputModel::Ready,
            Input::Interrupted => InputModel::Interrupted,
            Input::TimedOut => InputModel::TimedOut,
            Input::Packet(v) => InputModel::Packet(v@),
            Input::Failed(e) => InputModel::Failed(*e),
        }
    }
}

/// An outcome with its payload as a sequence.
pub open spec fn spec_outcome(o: Result<Vec<u8>, HciError>) -> Result<Seq<u8>, HciError> {
    match o {
        Ok(v) => Ok(v@),
        Err(e) => Err(e),
    }
}

/// The mathematical value of a `Request`.
#[verifier::ext_equal]
pub ghost struct RequestModel {
    pub opcode: u16,
    pub packet: Seq<u8>,
    pub timeout: int,
    pub attempts_left: int,
    pub saved: HciFilter,
    pub outcome: Result<Seq<u8>, HciError>,
    pub phase: Phase,
}

impl RequestModel {
    /// A request only waits or receives while it still has attempts left, so
    /// spending one never goes below zero; and it only waits while timeout
    /// remains on the clock.
    pub open spec fn wf(self) -> bool {
        &&& (self.phase is Waiting || self.phase is Receiving) ==> self.attempts_left >= 1
        &&& self.phase is Waiting ==> self.timeout >= 1
    }
}

/// Which inputs answer the action outstanding in each phase.
pub open spec fn spec_accepts(phase: Phase, i: InputModel) -> bool {
    match phase {
        Phase::FetchFilter => i is Filter || i is Failed,
        Phase::InstallFilter => i is Acked || i is Failed,
        Phase::SendCommand => i is Acked || i is Failed,
        Phase::Waiting => i is Ready || i is Interrupted || i is TimedOut || i is Failed,
        Phase::Receiving => i is Packet || i is Failed,
        Phase::Restore => i is Acked || i is Failed,
        Phase::Done => false,
    }
}

/// Head for the outcome `outcome`, restoring the saved filter first.
pub open spec fn spec_restore(s: RequestModel, outcome: Result<Seq<u8>, HciError>) -> (
    RequestModel,
    ActionModel,
) {
    (
        RequestModel { phase: Phase::Restore, outcome, ..s },
        ActionModel::SetFilter(s.saved),
    )
}

/// Begin one receive attempt: with the attempt budget spent the request
/// times out; with time on the clock it waits first; with none left it
/// reads unconditionally.
pub open spec fn spec_enter_attempt(s: RequestModel) -> (RequestModel, ActionModel) {
    if s.attempts_left <= 0 {
        spec_restore(s, Err(HciError::TimedOut))
    } else if s.timeout > 0 {
        (RequestModel { phase: Phase::Waiting, ..s }, ActionModel::Wait(s.timeout))
    } else {
        (RequestModel { phase: Phase::Receiving, ..s }, ActionModel::Recv)
    }
}

/// One transition of the request machine: from the current state and the
/// driver's report, the next state and the next action.
///
/// The transitions follow the request protocol: save the current filter,
/// install the narrowed one, send the framed command, then up to
/// `ATTEMPT_CAP` receive attempts, each preceded by a readiness wait while
/// timeout remains (the remaining timeout drops by `TIMEOUT_STEP` after each
/// wait, clamped at zero — a fixed step unrelated to how long the wait
/// really lasted, a known quirk kept as it is). A decoded command-complete
/// whose opcode matches ends the request with its retained payload; a
/// matching command-status ends it at once as a failure, rather than
/// awaiting the eventual command-complete — kept as it is, though real
/// controllers commonly send command-status first for pending operations.
/// Anything else spends one attempt. Every path that decides an outcome
/// after the original filter was fetched passes through `Restore`, which
/// puts the saved filter back before the request finishes; a failure while
/// restoring replaces the outcome with that failure.
pub open spec fn spec_step(s: RequestModel, i: InputModel) -> (RequestModel, ActionModel) {
    match s.phase {
        Phase::FetchFilter => match i {
            InputModel::Filter(f) => (
                RequestModel { saved: f, phase: Phase::InstallFilter, ..s },
                ActionModel::SetFilter(spec_request_filter(s.opcode)),
            ),
            InputModel::Failed(e) => (
                RequestModel { phase: Phase::Done, outcome: Err(e), ..s },
                ActionModel::Finish,
            ),
            _ => vstd::pervasive::arbitrary(),
        },
        Phase::InstallFilter => match i {
            InputModel::Acked => (
                RequestModel { phase: Phase::SendCommand, ..s },
                ActionModel::Send(s.packet),
            ),
            InputModel::Failed(e) => spec_restore(s, Err(e)),
            _ => vstd::pervasive::arbitrary(),
        },
        Phase::SendCommand => match i {
            InputModel::Acked => spec_enter_attempt(s),
            InputModel::Failed(e) => spec_restore(s, Err(e)),
            _ => vstd::pervasive::arbitrary(),
        },
        Phase::Waiting => match i {
            InputModel::Ready => (
                RequestModel {
                    timeout: if s.timeout - TIMEOUT_STEP < 0 {
                        0
                    } else {
                        s.timeout - TIMEOUT_STEP
                    },
                    phase: Phase::Receiving,
                    ..s
                },
                ActionModel::Recv,
            ),
            InputModel::Interrupted => (s, ActionModel::Wait(s.timeout)),
            InputModel::TimedOut => spec_restore(s, Err(HciError::TimedOut)),
            InputModel::Failed(e) => spec_restore(s, Err(e)),
            _ => vstd::pervasive::arbitrary(),
        },
        Phase::Receiving => match i {
            InputModel::Packet(bytes) => match spec_read_event(bytes) {
                Err(e) => spec_restore(s, Err(e)),
                Ok(em) => match em.body {
                    EventBody::CmdStatus { opcode, .. } => if opcode == s.opcode {
                        spec_restore(s, Err(HciError::StatusReceived))
                    } else {
                        spec_enter_attempt(RequestModel { attempts_left: s.attempts_left - 1, ..s })
                    },
                    EventBody::CmdComplete { opcode, .. } => if opcode == s.opcode {
                        spec_restore(s, Ok(em.data))
                    } else {
                        spec_enter_attempt(RequestModel { attempts_left: s.attempts_left - 1, ..s })
                    },
                    EventBody::Unsupported => spec_enter_attempt(
                        RequestModel { attempts_left: s.attempts_left - 1, ..s },
                    ),
                },
            },
            InputModel::Failed(e) => spec_restore(s, Err(e)),
            _ => vstd::pervasive::arbitrary(),
        },
        Phase::Restore => match i {
            InputModel::Acked => (
                RequestModel { phase: Phase::Done, ..s },
                ActionModel::Finish,
            ),
            InputModel::Failed(e) => (
                RequestModel { phase: Phase::Done, outcome: Err(e), ..s },
                ActionModel::Finish,
            ),
            _ => vstd::pervasive::arbitrary(),
        },
        Phase::Done => vstd::pervasive::arbitrary(),
    }
}

/// A request can finish only out of the restore phase or on the failure to
/// fetch the original filter (before anything was installed); the saved
/// filter never changes after it is fetched; and every transition that turns
/// to restoring issues exactly the saved filter. Together: completion is
/// always bracketed by restoration of the filter in effect before the call.
pub proof fn lemma_restore_brackets_outcome(s: RequestModel, i: InputModel)
    requires
        spec_accepts(s.phase, i),
    ensures
        spec_step(s, i).1 is Finish ==> (s.phase is Restore || s.phase is FetchFilter),
        !(s.phase is FetchFilter) ==> spec_step(s, i).0.saved == s.saved,
        spec_step(s, i).0.phase is Restore ==> spec_step(s, i).1 == ActionModel::SetFilter(s.saved),
{
}

/// The starting state of a request: command framed, opcode packed, full
/// attempt budget, no outcome yet.
pub open spec fn spec_new_request(ogf: u16, ocf: u16, param: Seq<u8>, timeout: int) -> RequestModel {
    RequestModel {
        opcode: spec_opcode_pack(ogf, ocf),
        packet: spec_command_packet(spec_opcode_pack(ogf, ocf), param),
        timeout,
        attempts_left: ATTEMPT_CAP as int,
        saved: HciFilter { type_mask: 0, event_mask: 0, opcode: 0 },
        outcome: Err(HciError::TimedOut),
        phase: Phase::FetchFilter,
    }
}

/// One in-flight command/response exchange, as a state machine.
///
/// The request owns no socket: its driver performs each `Action` on a real
/// socket and reports what happened as an `Input`. The machine holds the
/// framed packet, the filter to restore, the attempt budget and the
/// remaining timeout, and decides everything else. One socket carries one
/// request at a time; concurrent exchanges need distinct sockets or outside
/// serialization.
pub struct Request {
    opcode: u16,
    packet: Vec<u8>,
    timeout: i32,
    attempts_left: u8,
    saved: HciFilter,
    outcome: Result<Vec<u8>, HciError>,
    phase: Phase,
}

impl View for Request {
    type V = RequestModel;

    closed spec fn view(&self) -> RequestModel {
        RequestModel {
            opcode: self.opcode,
            packet: self.packet@,
            timeout: self.timeout as int,
            attempts_left: self.attempts_left as int,
            saved: self.saved,
            outcome: spec_outcome(self.outcome),
            phase: self.phase,
        }
    }
}

/// An owned copy of a byte buffer.
fn copy_bytes(v: &Vec<u8>) -> (c: Vec<u8>)
    ensures
        c@ == v@,
{
    let mut c: Vec<u8> = Vec::new();
    let mut i: usize = 0;
    while i < v.len()
        invariant
            i <= v@.len(),
            c@ == v@.subrange(0, i as int),
        decreases v@.len() - i,
    {
        c.push(v[i]);
        proof {
            assert(c@ =~= v@.subrange(0, i + 1));
        }
        i = i + 1;
    }
    proof {
        assert(c@ =~= v@);
    }
    c
}

impl Request {
    /// Open a request: pack the opcode from `ogf` and `ocf`, frame the
    /// command packet around `param`, and start with the filter fetch.
    pub fn new(ogf: u16, ocf: u16, param: &[u8], timeout: i32) -> (r: Request)
        requires
            param@.len() <= 255,
        ensures
            r@ == spec_new_request(ogf, ocf, param@, timeout as int),
            r@.wf(),
    {
        let opcode = cmd_opcode_pack(ogf, ocf);
        let packet = command_packet(ogf, ocf, param);
        Request {
            opcode,
            packet,
            timeout,
            attempts_left: ATTEMPT_CAP,
            saved: HciFilter::default(),
            outcome: Err(HciError::TimedOut),
            phase: Phase::FetchFilter,
        }
    }

    /// The request for the write-device-class command: fixed group and
    /// feature, and a parameter block of the class value's low three bytes,
    /// least-significant first.
    pub fn write_class_of_dev(class: u32, timeout: i32) -> (r: Request)
        ensures
            r@ == spec_new_request(
                OGF_HOST_CTL,
                OCF_WRITE_CLASS_OF_DEV,
                seq![(class & 0xff) as u8, ((class >> 8) & 0xff) as u8, ((class >> 16) & 0xff) as u8],
                timeout as int,
            ),
            r@.wf(),
    {
        let mut param: Vec<u8> = Vec::new();
        param.push((class & 0xff) as u8);
        param.push(((class >> 8) & 0xff) as u8);
        param.push(((class >> 16) & 0xff) as u8);
        proof {
            assert(param@ =~= seq![
                (class & 0xff) as u8,
                ((class >> 8) & 0xff) as u8,
                ((class >> 16) & 0xff) as u8,
            ]);
        }
        Request::new(OGF_HOST_CTL, OCF_WRITE_CLASS_OF_DEV, param.as_slice(), timeout)
    }

    /// The first action of a fresh request: fetch the filter to restore.
    pub fn start(&self) -> (a: Action)
        requires
            self@.phase is FetchFilter,
        ensures
            a@ == ActionModel::GetFilter,
    {
        Action::GetFilter
    }

    /// Head for the restore phase with `outcome` decided.
    fn restore_with(self, outcome: Result<Vec<u8>, HciError>) -> (r: (Request, Action))
        ensures
            r.0@ == spec_restore(self@, spec_outcome(outcome)).0,
            r.1@ == spec_restore(self@, spec_outcome(outcome)).1,
            r.0@.wf(),
    {
        let a = Action::SetFilter(self.saved);
        (Request { phase: Phase::Restore, outcome, ..self }, a)
    }

    /// Begin one receive attempt, as `spec_enter_attempt` says.
    fn enter_attempt(self) -> (r: (Request, Action))
        ensures
            r.0@ == spec_enter_attempt(self@).0,
            r.1@ == spec_enter_attempt(self@).1,
            r.0@.wf(),
    {
        if self.attempts_left == 0 {
            self.restore_with(Err(HciError::TimedOut))
        } else if self.timeout > 0 {
            let t = self.timeout;
            (Request { phase: Phase::Waiting, ..self }, Action::Wait(t))
        } else {
            (Request { phase: Phase::Receiving, ..self }, Action::Recv)
        }
    }

    /// Feed the machine the result of the last action; get the next action.
    /// The transition taken is exactly `spec_step` on the request's value.
    pub fn step(self, input: Input) -> (r: (Request, Action))
        requires
            self@.wf(),
            spec_accepts(self@.phase, input@),
        ensures
            r.0@ == spec_step(self@, input@).0,
            r.1@ == spec_step(self@, input@).1,
            r.0@.wf(),
    {
        match self.phase {
            Phase::FetchFilter => match input {
                Input::Filter(f) => {
                    let a = Action::SetFilter(request_filter(self.opcode));
                    (Request { saved: f, phase: Phase::InstallFilter, ..self }, a)
                },
                Input::Failed(e) => (
                    Request { outcome: Err(e), phase: Phase::Done, ..self },
                    Action::Finish,
                ),
                _ => {
                    proof {
                        assert(false);
                    }
                    (self, Action::Finish)
                },
            },
            Phase::InstallFilter => match input {
                Input::Acked => {
                    let a = Action::Send(copy_bytes(&self.packet));
                    (Request { phase: Phase::SendCommand, ..self }, a)
                },
                Input::Failed(e) => self.restore_with(Err(e)),
                _ => {
                    proof {
                        assert(false);
                    }
                    (self, Action::Finish)
                },
            },
            Phase::SendCommand => match input {
                Input::Acked => self.enter_attempt(),
                Input::Failed(e) => self.restore_with(Err(e)),
                _ => {
                    proof {
                        assert(false);
                    }
                    (self, Action::Finish)
                },
            },
            Phase::Waiting => match input {
                Input::Ready => {
                    let t0 = self.timeout;
                    let t: i32 = if t0 - TIMEOUT_STEP < 0 {
                        0
                    } else {
                        t0 - TIMEOUT_STEP
                    };
                    (Request { timeout: t, phase: Phase::Receiving, ..self }, Action::Recv)
                },
                Input::Interrupted => {
                    let t = self.timeout;
                    (self, Action::Wait(t))
                },
                Input::TimedOut => self.restore_with(Err(HciError::TimedOut)),
                Input::Failed(e) => self.restore_with(Err(e)),
                _ => {
                    proof {
                        assert(false);
                    }
                    (self, Action::Finish)
                },
            },
            Phase::Receiving => match input {
                Input::Packet(bytes) => {
                    let ghost bseq = bytes@;
                    let mut rd = Reader::new(bytes);
                    proof {
                        assert(rd.rest() =~= bseq);
                    }
                    match Event::read_from(&mut rd) {
                        Err(e) => self.restore_with(Err(e)),
                        Ok((ev, _n)) => match ev.body {
                            EventBody::CmdStatus { opcode: r_opcode, .. } => {
                                if r_opcode == self.opcode {
                                    self.restore_with(Err(HciError::StatusReceived))
                                } else {
                                    Request {
                                        attempts_left: self.attempts_left - 1,
                                        ..self
                                    }.enter_attempt()
                                }
                            },
                            EventBody::CmdComplete { opcode: r_opcode, .. } => {
                                if r_opcode == self.opcode {
                                    self.restore_with(Ok(ev.data))
                                } else {
                                    Request {
                                        attempts_left: self.attempts_left - 1,
                                        ..self
                                    }.enter_attempt()
                                }
                            },
                            EventBody::Unsupported => Request {
                                attempts_left: self.attempts_left - 1,
                                ..self
                            }.enter_attempt(),
                        },
                    }
                },
                Input::Failed(e) => self.restore_with(Err(e)),
                _ => {
                    proof {
                        assert(false);
                    }
                    (self, Action::Finish)
                },
            },
            Phase::Restore => match input {
                Input::Acked => (Request { phase: Phase::Done, ..self }, Action::Finish),
                Input::Failed(e) => (
                    Request { outcome: Err(e), phase: Phase::Done, ..self },
                    Action::Finish,
                ),
                _ => {
                    proof {
                        assert(false);
                    }
                    (self, Action::Finish)
                },
            },
            Phase::Done => {
                proof {
                    assert(false);
                }
                (self, Action::Finish)
            },
        }
    }

    /// Take the decided outcome of a finished request: the payload bytes a
    /// matching command-complete retained, or the error that ended it.
    pub fn into_result(self) -> (res: Result<Vec<u8>, HciError>)
        requires
            self@.phase is Done,
        ensures
            spec_outcome(res) == self@.outcome,
    {
        self.outcome
    }
}

} // verus!
