use vstd::prelude::*;

verus! {

use crate::error::HciError;
use crate::io::{byte_at, consumed_len, le_u16, ReadFrom, Reader};

/// Event code of a command-complete event: the final result of a command.
pub const EVT_CMD_COMPLETE: u8 = 0x0E;

/// Event code of a command-status event: a provisional acknowledgment.
pub const EVT_CMD_STATUS: u8 = 0x0F;

/// The fixed two-byte header of an event packet: the event code and the
/// declared payload length.
///
/// The declared length is carried but not used to bound parsing: decoding
/// takes whatever is left in the receive buffer as the event's payload,
/// which is sound for transports that deliver one packet per read.
#[derive(Clone, Copy, Debug, PartialEq, Eq, Structural)]
pub struct EventHeader {
    pub event: u8,
    pub plen: u8,
}

impl ReadFrom for EventHeader {
    open spec fn parse_spec(s: Seq<u8>) -> Result<(EventHeader, int), HciError> {
        Ok((EventHeader { event: byte_at(s, 0), plen: byte_at(s, 1) }, consumed_len(s, 2)))
    }

    fn read_from(r: &mut Reader) -> (res: Result<(EventHeader, usize), HciError>) {
        let (event, n0): (u8, usize) = match r.next() {
            Some(b) => (b, 1),
            None => (0, 0),
        };
        let (plen, n1): (u8, usize) = match r.next() {
            Some(b) => (b, 1),
            None => (0, 0),
        };
        Ok((EventHeader { event, plen }, n0 + n1))
    }
}

/// The decoded body of an event. Only the two command-response kinds are
/// interpreted; every other event code is preserved as `Unsupported`.
#[derive(Clone, Copy, Debug, PartialEq, Eq, Structural)]
pub enum EventBody {
    /// An event this layer does not interpret.
    Unsupported,
    /// Final result of a command, correlated by its opcode.
    CmdComplete { ncmd: u8, opcode: u16 },
    /// Provisional acknowledgment of a command, correlated by its opcode.
    CmdStatus { status: u8, ncmd: u8, opcode: u16 },
}

impl EventBody {
    /// The numeric event code this body corresponds to; zero for a body that
    /// carries an uninterpreted event.
    pub open spec fn spec_code(self) -> u8 {
        match self {
            EventBody::Unsupported => 0x00,
            EventBody::CmdComplete { .. } => EVT_CMD_COMPLETE,
            EventBody::CmdStatus { .. } => EVT_CMD_STATUS,
        }
    }

    /// Return the numeric code for an event body.
    pub fn _code(&self) -> (c: u8)
        ensures
            c == self.spec_code(),
    {
        match self {
            EventBody::Unsupported => 0x00,
            EventBody::CmdComplete { .. } => EVT_CMD_COMPLETE,
            EventBody::CmdStatus { .. } => EVT_CMD_STATUS,
        }
    }
}

/// One received event: its header, its decoded body, and the raw bytes that
/// followed the decoded fields, kept verbatim so a caller can extract
/// command-specific return parameters.
#[derive(Clone, Debug)]
pub struct Event {
    pub header: EventHeader,
    pub body: EventBody,
    pub data: Vec<u8>,
}

/// The mathematical value of an `Event`: the same fields with the retained
/// bytes as a sequence.
#[verifier::ext_equal]
pub ghost struct EventModel {
    pub header: EventHeader,
    pub body: EventBody,
    pub data: Seq<u8>,
}

impl View for Event {
    type V = EventModel;

    open spec fn view(&self) -> EventModel {
        EventModel { header: self.header, body: self.body, data: self.data@ }
    }
}

/// What decoding one received packet yields.
///
/// The first byte is a link-layer prefix and is discarded. The next two
/// bytes are the event header. A command-complete body adds one byte of
/// command credit and a little-endian opcode; a command-status body adds a
/// status byte first. Any other event code is kept uninterpreted. A buffer
/// shorter than the fixed fields it must hold is a short event, never a
/// fabricated default.
pub open spec fn spec_read_event(buf: Seq<u8>) -> Result<EventModel, HciError> {
    if buf.len() < 3 {
        Err(HciError::ShortEvent)
    } else {
        let header = EventHeader { event: buf[1], plen: buf[2] };
        if buf[1] == EVT_CMD_COMPLETE {
            if buf.len() < 6 {
                Err(HciError::ShortEvent)
            } else {
                Ok(EventModel {
                    header,
                    body: EventBody::CmdComplete { ncmd: buf[3], opcode: le_u16(buf[4], buf[5]) },
                    data: buf.skip(6),
                })
            }
        } else if buf[1] == EVT_CMD_STATUS {
            if buf.len() < 7 {
                Err(HciError::ShortEvent)
            } else {
                Ok(EventModel {
                    header,
                    body: EventBody::CmdStatus {
                        status: buf[3],
                        ncmd: buf[4],
                        opcode: le_u16(buf[5], buf[6]),
                    },
                    data: buf.skip(7),
                })
            }
        } else {
            Ok(EventModel { header, body: EventBody::Unsupported, data: buf.skip(3) })
        }
    }
}

impl Event {
    /// Create a new event from a header, a body and the retained bytes.
    pub fn new(header: EventHeader, body: EventBody, data: Vec<u8>) -> (e: Event)
        ensures
            e@ == (EventModel { header, body, data: data@ }),
    {
        Event { header, body, data }
    }

    /// Decode one received packet, consuming the whole remaining buffer.
    ///
    /// On success the consumed count is the full length of the packet, and
    /// the decoded event is exactly what `spec_read_event` names for those
    /// bytes; a packet shorter than its fixed fields fails as a short event.
    pub fn read_from(r: &mut Reader) -> (res: Result<(Event, usize), HciError>)
        requires
            old(r).wf(),
        ensures
            final(r).wf(),
            final(r).all() == old(r).all(),
            match res {
                Ok(p) => spec_read_event(old(r).rest()) == Ok::<EventModel, HciError>(p.0@)
                    && p.1 as int == old(r).rest().len() && final(r).rest().len() == 0,
                Err(e) => spec_read_event(old(r).rest()) == Err::<EventModel, HciError>(e),
            },
    {
        let ghost buf = r.rest();
        let total = r.remaining();
        if total < 3 {
            return Err(HciError::ShortEvent);
        }
        let _prefix: u8 = match r.next() {
            Some(b) => b,
            None => {
                proof {
                    assert(false);
                }
                0
            },
        };
        let (header, _hn): (EventHeader, usize) = match EventHeader::read_from(r) {
            Ok(p) => p,
            Err(e) => {
                proof {
                    assert(false);
                }
                return Err(e);
            },
        };
        proof {
            assert(buf.skip(1)[0] == buf[1]);
            assert(buf.skip(1)[1] == buf[2]);
            assert(r.rest() =~= buf.skip(3));
        }
        if header.event == EVT_CMD_COMPLETE {
            if r.remaining() < 3 {
                return Err(HciError::ShortEvent);
            }
            let (ncmd, _n1): (u8, usize) = match u8::read_from(r) {
                Ok(p) => p,
                Err(e) => {
                    proof {
                        assert(false);
                    }
                    return Err(e);
                },
            };
            let (opcode, _n2): (u16, usize) = match u16::read_from(r) {
                Ok(p) => p,
                Err(e) => {
                    proof {
                        assert(false);
                    }
                    return Err(e);
                },
            };
            proof {
                assert(buf.skip(3)[0] == buf[3]);
                assert(buf.skip(4)[0] == buf[4]);
                assert(buf.skip(4)[1] == buf[5]);
                assert(r.rest() =~= buf.skip(6));
            }
            let data = r.take_rest();
            let ev = Event::new(header, EventBody::CmdComplete { ncmd, opcode }, data);
            proof {
                assert(ev@ =~= spec_read_event(buf)->Ok_0);
            }
            Ok((ev, total))
        } else if header.event == EVT_CMD_STATUS {
            if r.remaining() < 4 {
                return Err(HciError::ShortEvent);
            }
            let (status, _n1): (u8, usize) = match u8::read_from(r) {
                Ok(p) => p,
                Err(e) => {
                    proof {
                        assert(false);
                    }
                    return Err(e);
                },
            };
            let (ncmd, _n2): (u8, usize) = match u8::read_from(r) {
                Ok(p) => p,
                Err(e) => {
                    proof {
                        assert(false);
                    }
                    return Err(e);
                },
            };
            let (opcode, _n3): (u16, usize) = match u16::read_from(r) {
                Ok(p) => p,
                Err(e) => {
                    proof {
                        assert(false);
                    }
                    return Err(e);
                },
            };
            proof {
                assert(buf.skip(3)[0] == buf[3]);
                assert(buf.skip(4)[0] == buf[4]);
                assert(buf.skip(5)[0] == buf[5]);
                assert(buf.skip(5)[1] == buf[6]);
                assert(r.rest() =~= buf.skip(7));
            }
            let data = r.take_rest();
            let ev = Event::new(header, EventBody::CmdStatus { status, ncmd, opcode }, data);
            proof {
                assert(ev@ =~= spec_read_event(buf)->Ok_0);
            }
            Ok((ev, total))
        } else {
            let data = r.take_rest();
            let ev = Event::new(header, EventBody::Unsupported, data);
            proof {
                assert(ev@ =~= spec_read_event(buf)->Ok_0);
            }
            Ok((ev, total))
        }
    }
}

} // verus!
