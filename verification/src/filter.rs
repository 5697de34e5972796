use vstd::prelude::*;

verus! {

use crate::error::HciError;

/// In-memory mirror of the kernel-resident event filter: a 32-bit set of
/// allowed packet types, a 64-bit set of allowed event codes, and a 16-bit
/// exact-match opcode.
///
/// Mutations here are purely local; the kernel copy changes only when the
/// caller pushes this structure through its socket. Bit positions are
/// checked against the domains 0–31 (packet types) and 0–63 (events);
/// out-of-range positions are rejected and never silently truncated.
#[derive(Clone, Copy, Debug, PartialEq, Eq, Structural)]
pub struct HciFilter {
    pub type_mask: u32,
    pub event_mask: u64,
    pub opcode: u16,
}

impl Default for HciFilter {
    /// A filter that lets nothing through: both masks and the opcode zero.
    fn default() -> (f: HciFilter)
        ensures
            f.type_mask == 0,
            f.event_mask == 0,
            f.opcode == 0,
    {
        HciFilter { type_mask: 0, event_mask: 0, opcode: 0 }
    }
}

impl HciFilter {
    /// Return the type mask.
    pub fn get_type_mask(&self) -> (m: u32)
        ensures
            m == self.type_mask,
    {
        self.type_mask
    }

    /// Set the type mask as a whole word.
    pub fn set_type_mask(&mut self, type_mask: u32)
        ensures
            final(self).type_mask == type_mask,
            final(self).event_mask == old(self).event_mask,
            final(self).opcode == old(self).opcode,
    {
        self.type_mask = type_mask
    }

    /// Clear the type mask.
    pub fn clear_type_mask(&mut self)
        ensures
            final(self).type_mask == 0,
            final(self).event_mask == old(self).event_mask,
            final(self).opcode == old(self).opcode,
    {
        self.type_mask = 0;
    }

    /// Set one packet type in the type mask. Positions 32 and above are out
    /// of the domain: they fail and leave the filter untouched.
    pub fn set_type(&mut self, t: u8) -> (res: Result<(), HciError>)
        ensures
            t < 32 ==> res == Ok::<(), HciError>(())
                && final(self).type_mask == old(self).type_mask | (1u32 << (t as u32)),
            t >= 32 ==> res == Err::<(), HciError>(HciError::OutOfRange)
                && final(self).type_mask == old(self).type_mask,
            final(self).event_mask == old(self).event_mask,
            final(self).opcode == old(self).opcode,
    {
        if t < 32 {
            self.type_mask = self.type_mask | (1u32 << (t as u32));
            Ok(())
        } else {
            Err(HciError::OutOfRange)
        }
    }

    /// Clear one packet type in the type mask. Positions 32 and above are
    /// out of the domain: they fail and leave the filter untouched.
    pub fn unset_type(&mut self, t: u8) -> (res: Result<(), HciError>)
        ensures
            t < 32 ==> res == Ok::<(), HciError>(())
                && final(self).type_mask == old(self).type_mask & !(1u32 << (t as u32)),
            t >= 32 ==> res == Err::<(), HciError>(HciError::OutOfRange)
                && final(self).type_mask == old(self).type_mask,
            final(self).event_mask == old(self).event_mask,
            final(self).opcode == old(self).opcode,
    {
        if t < 32 {
            self.type_mask = self.type_mask & !(1u32 << (t as u32));
            Ok(())
        } else {
            Err(HciError::OutOfRange)
        }
    }

    /// Return the event mask.
    pub fn get_event_mask(&self) -> (m: u64)
        ensures
            m == self.event_mask,
    {
        self.event_mask
    }

    /// Set the event mask as a whole word.
    pub fn set_event_mask(&mut self, event_mask: u64)
        ensures
            final(self).event_mask == event_mask,
            final(self).type_mask == old(self).type_mask,
            final(self).opcode == old(self).opcode,
    {
        self.event_mask = event_mask
    }

    /// Clear the event mask.
    pub fn clear_event_mask(&mut self)
        ensures
            final(self).event_mask == 0,
            final(self).type_mask == old(self).type_mask,
            final(self).opcode == old(self).opcode,
    {
        self.event_mask = 0;
    }

    /// Enable one event in the event mask. Positions 64 and above are out of
    /// the domain: they fail and leave the filter untouched.
    pub fn set_event(&mut self, event: u8) -> (res: Result<(), HciError>)
        ensures
            event < 64 ==> res == Ok::<(), HciError>(())
                && final(self).event_mask == old(self).event_mask | (1u64 << (event as u64)),
            event >= 64 ==> res == Err::<(), HciError>(HciError::OutOfRange)
                && final(self).event_mask == old(self).event_mask,
            final(self).type_mask == old(self).type_mask,
            final(self).opcode == old(self).opcode,
    {
        if event < 64 {
            self.event_mask = self.event_mask | (1u64 << (event as u64));
            Ok(())
        } else {
            Err(HciError::OutOfRange)
        }
    }

    /// Remove one event from the event mask. Positions 64 and above are out
    /// of the domain: they fail and leave the filter untouched.
    pub fn unset_event(&mut self, event: u8) -> (res: Result<(), HciError>)
        ensures
            event < 64 ==> res == Ok::<(), HciError>(())
                && final(self).event_mask == old(self).event_mask & !(1u64 << (event as u64)),
            event >= 64 ==> res == Err::<(), HciError>(HciError::OutOfRange)
                && final(self).event_mask == old(self).event_mask,
            final(self).type_mask == old(self).type_mask,
            final(self).opcode == old(self).opcode,
    {
        if event < 64 {
            self.event_mask = self.event_mask & !(1u64 << (event as u64));
            Ok(())
        } else {
            Err(HciError::OutOfRange)
        }
    }

    /// Return the current opcode.
    pub fn get_opcode(&self) -> (o: u16)
        ensures
            o == self.opcode,
    {
        self.opcode
    }

    /// Set the opcode. The whole 16-bit range is allowed.
    pub fn set_opcode(&mut self, opcode: u16)
        ensures
            final(self).opcode == opcode,
            final(self).type_mask == old(self).type_mask,
            final(self).event_mask == old(self).event_mask,
    {
        self.opcode = opcode
    }
}

/// Within the domain 0–31, setting a packet-type bit makes exactly that bit
/// visible in the mask, and clearing it afterwards restores a mask in which
/// it was clear. Setting and clearing a type bit are inverse operations.
pub proof fn lemma_type_bit_set_unset(m: u32, t: u8)
    requires
        t < 32,
        m & (1u32 << (t as u32)) == 0,
    ensures
        ((m | (1u32 << (t as u32))) >> (t as u32)) & 1 == 1,
        (m | (1u32 << (t as u32))) & !(1u32 << (t as u32)) == m,
        (m >> (t as u32)) & 1 == 0,
        forall|i: u32| i < 32 && i != t as u32
            ==> ((m | (1u32 << (t as u32))) >> i) & 1 == (m >> i) & 1,
{
    let tt = t as u32;
    assert(tt < 32 && m & (1u32 << tt) == 0 ==> ((m | (1u32 << tt)) >> tt) & 1 == 1
        && (m | (1u32 << tt)) & !(1u32 << tt) == m
        && (m >> tt) & 1 == 0) by (bit_vector);
    assert forall|i: u32| i < 32 && i != tt implies ((m | (1u32 << tt)) >> i) & 1 == (m >> i)
        & 1 by {
        assert(tt < 32 && i < 32 && i != tt ==> ((m | (1u32 << tt)) >> i) & 1 == (m >> i) & 1)
            by (bit_vector);
    }
}

/// Within the domain 0–63, setting an event bit makes exactly that bit
/// visible in the mask, and clearing it afterwards restores a mask in which
/// it was clear. Setting and clearing an event bit are inverse operations.
pub proof fn lemma_event_bit_set_unset(m: u64, e: u8)
    requires
        e < 64,
        m & (1u64 << (e as u64)) == 0,
    ensures
        ((m | (1u64 << (e as u64))) >> (e as u64)) & 1 == 1,
        (m | (1u64 << (e as u64))) & !(1u64 << (e as u64)) == m,
        (m >> (e as u64)) & 1 == 0,
        forall|i: u64| i < 64 && i != e as u64
            ==> ((m | (1u64 << (e as u64))) >> i) & 1 == (m >> i) & 1,
{
    let ee = e as u64;
    assert(ee < 64 && m & (1u64 << ee) == 0 ==> ((m | (1u64 << ee)) >> ee) & 1 == 1
        && (m | (1u64 << ee)) & !(1u64 << ee) == m
        && (m >> ee) & 1 == 0) by (bit_vector);
    assert forall|i: u64| i < 64 && i != ee implies ((m | (1u64 << ee)) >> i) & 1 == (m >> i)
        & 1 by {
        assert(ee < 64 && i < 64 && i != ee ==> ((m | (1u64 << ee)) >> i) & 1 == (m >> i) & 1)
            by (bit_vector);
    }
}

} // verus!
