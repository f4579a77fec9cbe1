//! Timing and header bookkeeping of the externally-guided-motion channel:
//! the sequence numbers, clocks and timestamps that its correction and
//! feedback messages carry. The channel's transport and encoding live
//! outside the library; these types model exactly the fields the timing
//! logic reads and writes.

use vstd::prelude::*;

verus! {

/// The kind of message this controller sends: only corrections.
#[derive(Clone, Copy, PartialEq, Eq, Structural, Debug)]
pub enum EgmMessageType {
    /// A correction from the controller to the robot.
    Correction,
}

/// The header every message carries.
#[derive(Clone, Copy, PartialEq, Eq, Structural, Debug)]
pub struct EgmHeader {
    /// The message's sequence number.
    pub seqno: Option<u32>,
    /// The message's millisecond timestamp, reduced to 32 bits.
    pub tm: Option<u32>,
    /// What kind of message this is.
    pub mtype: Option<EgmMessageType>,
}

impl EgmHeader {
    /// The header of one outbound correction message.
    pub fn create_header(seqno: u32, timestamp: u32) -> (r: EgmHeader)
        ensures
            r.seqno == Some(seqno),
            r.tm == Some(timestamp),
            r.mtype == Some(EgmMessageType::Correction),
    {
        EgmHeader { seqno: Some(seqno), tm: Some(timestamp), mtype: Some(
            EgmMessageType::Correction,
        ) }
    }
}

/// A wall clock as the channel carries it: whole seconds since the epoch
/// and the microseconds within the second.
#[derive(Clone, Copy, PartialEq, Eq, Structural, Debug)]
pub struct EgmClock {
    /// Whole seconds since the epoch.
    pub sec: u64,
    /// Microseconds; values of a second or more spill into the seconds.
    pub usec: u64,
}

impl EgmClock {
    /// A clock reading from its two fields.
    pub fn create_egm_clock(sec: u64, usec: u64) -> (r: EgmClock)
        ensures
            r.sec == sec,
            r.usec == usec,
    {
        EgmClock { sec, usec }
    }

    /// The elapsed time since the epoch: whole seconds, with the
    /// microsecond overflow folded in, and the nanoseconds within the
    /// second.
    pub fn elapsed_since_epoch(&self) -> (r: (u64, u32))
        requires
            self.sec + self.usec / 1_000_000 <= u64::MAX,
        ensures
            r.0 == self.sec + self.usec / 1_000_000,
            r.1 == (self.usec % 1_000_000) * 1000,
    {
        let secs: u64 = self.sec + self.usec / 1_000_000;
        let nanos: u32 = (self.usec % 1_000_000) as u32 * 1000;
        (secs, nanos)
    }

    /// The clock as a millisecond timestamp, reduced to 32 bits exactly
    /// as the header field carries it.
    pub fn as_timestamp_ms(&self) -> (r: u32)
        ensures
            r == (self.sec * 1000 + self.usec / 1000) % 0x1_0000_0000,
    {
        let ms: u64 = self.sec.wrapping_mul(1000).wrapping_add(self.usec / 1000);
        proof {
            let a = (self.sec * 1000) as int;
            let b = ((self.usec) / 1000) as int;
            let m32: int = 0x1_0000_0000;
            let m64: int = 0x1_0000_0000_0000_0000;
            vstd::arithmetic::div_mod::lemma_mod_bound(a, m64);
            vstd::arithmetic::div_mod::lemma_mod_bound(a % m64 + b, m64);
            assert(ms == (a % m64 + b) % m64);
            vstd::arithmetic::div_mod::lemma_mod_mod(a, m32, m32);
            vstd::arithmetic::div_mod::lemma_mod_mod(a % m64 + b, m32, m32);
            vstd::arithmetic::div_mod::lemma_add_mod_noop(a % m64, b, m32);
            vstd::arithmetic::div_mod::lemma_add_mod_noop(a, b, m32);
            assert(ms as u32 == ms % 0x1_0000_0000u64) by (bit_vector);
        }
        #[verifier::truncate] (ms as u32)
    }

    /// The clock's two fields.
    pub fn as_tuple(&self) -> (r: (u64, u64))
        ensures
            r.0 == self.sec,
            r.1 == self.usec,
    {
        (self.sec, self.usec)
    }
}

/// A logging timestamp: seconds and nanoseconds, both optional fields of
/// the message.
#[derive(Clone, Copy, PartialEq, Eq, Structural, Debug)]
pub struct EgmTimestamp {
    /// Whole seconds since the epoch.
    pub sec: Option<u64>,
    /// Nanoseconds within the second.
    pub nsec: Option<u64>,
}

impl EgmTimestamp {
    /// A timestamp for logging and reporting.
    pub fn create_egm_timestamp(sec: u64, nsec: u64) -> (r: EgmTimestamp)
        ensures
            r.sec == Some(sec),
            r.nsec == Some(nsec),
    {
        EgmTimestamp { sec: Some(sec), nsec: Some(nsec) }
    }
}

/// What the timing logic reads of one inbound robot message: its header
/// and the feedback clock it carries.
#[derive(Clone, Copy, PartialEq, Eq, Structural, Debug)]
pub struct EgmRobot {
    /// The message header, when the message carried one.
    pub header: Option<EgmHeader>,
    /// The feedback clock, when the feedback carried one.
    pub feedback_time: Option<EgmClock>,
}

impl EgmRobot {
    /// The message's sequence number, read through the header.
    pub fn get_sqno(&self) -> (r: Option<u32>)
        ensures
            r == (match self.header {
                Some(h) => h.seqno,
                None => None,
            }),
    {
        match self.header {
            Some(h) => h.seqno,
            None => None,
        }
    }

    /// The message's timestamp, read through the header.
    pub fn get_timestamp(&self) -> (r: Option<u32>)
        ensures
            r == (match self.header {
                Some(h) => h.tm,
                None => None,
            }),
    {
        match self.header {
            Some(h) => h.tm,
            None => None,
        }
    }

    /// The feedback clock as its two fields.
    pub fn get_time(&self) -> (r: Option<(u64, u64)>)
        ensures
            self.feedback_time matches Some(c) ==> r == Some((c.sec, c.usec)),
            self.feedback_time is None ==> r is None,
    {
        match self.feedback_time {
            Some(c) => Some((c.sec, c.usec)),
            None => None,
        }
    }
}

} // verus!
