//! Clock synchronization: offset estimation from round-trip timestamp
//! exchanges, and translation of remote timestamps into local instants.
//!
//! A round trip yields four timestamps, all in microseconds:
//! `client_send` (`t1`) and `client_recv` (`t4`) on the local monotonic
//! clock, `server_recv` (`t2`) and `server_send` (`t3`) on the remote clock.
//! The symmetric estimate of the remote-minus-local offset is
//! `((t2 - t1) + (t3 - t4)) / 2`, with the division rounding toward zero.
//! Each update unconditionally replaces the previous estimate; the estimate
//! is anchored to the local clock by `t1` and `t4` of the latest exchange
//! and stays valid until a fresher one arrives.

use vstd::prelude::*;

verus! {

/// Quotient of `x / 2` rounded toward zero, as the executable code computes
/// it on signed integers (spec-mode `/` alone would round toward negative
/// infinity).
pub open spec fn half_toward_zero(x: int) -> int {
    if x >= 0 {
        x / 2
    } else {
        -((-x) / 2)
    }
}

/// The remote-minus-local clock offset, in microseconds, that one round trip
/// `(t1, t2, t3, t4)` yields: `((t2 - t1) + (t3 - t4)) / 2`, rounded toward
/// zero.
pub open spec fn spec_round_trip_offset(t1: int, t2: int, t3: int, t4: int) -> int {
    half_toward_zero((t2 - t1) + (t3 - t4))
}

/// Latest round-trip-derived estimate of the remote clock's offset against
/// the local monotonic clock.
pub struct ClockSync {
    /// Remote-minus-local offset in microseconds; `None` until the first
    /// exchange has been folded in.
    offset_us: Option<i64>,
}

impl ClockSync {
    /// The latest offset estimate, `None` before any update.
    pub closed spec fn spec_offset(&self) -> Option<i64> {
        self.offset_us
    }

    /// True once at least one exchange has been folded in.
    pub open spec fn is_synchronized(&self) -> bool {
        self.spec_offset() is Some
    }

    /// What translating `remote_ts` yields: `None` without an estimate or
    /// when the translated instant leaves `i64`, else `remote_ts - offset`.
    pub open spec fn spec_translation(&self, remote_ts: i64) -> Option<i64> {
        match self.spec_offset() {
            None => None,
            Some(off) => if i64::MIN <= remote_ts - off <= i64::MAX {
                Some((remote_ts - off) as i64)
            } else {
                None
            },
        }
    }

    /// A fresh estimator with no offset estimate: every translation returns
    /// `None` until the first update.
    pub fn new() -> (r: ClockSync)
        ensures
            r.spec_offset() is None,
    {
        ClockSync { offset_us: None }
    }

    /// Fold one round-trip sample into the offset estimate. The new estimate
    /// unconditionally supersedes the previous one.
    ///
    /// The bounds keep the intermediate differences and their sum inside
    /// `i64`; they hold of any timestamps a real clock produces.
    pub fn update(&mut self, client_send: i64, server_recv: i64, server_send: i64, client_recv: i64)
        requires
            i64::MIN <= server_recv - client_send <= i64::MAX,
            i64::MIN <= server_send - client_recv <= i64::MAX,
            i64::MIN < (server_recv - client_send) + (server_send - client_recv) <= i64::MAX,
        ensures
            final(self).spec_offset() == Some(
                spec_round_trip_offset(
                    client_send as int,
                    server_recv as int,
                    server_send as int,
                    client_recv as int,
                ) as i64,
            ),
    {
        let forward: i64 = server_recv - client_send;
        let backward: i64 = server_send - client_recv;
        let sum: i64 = forward + backward;
        let offset: i64 = if sum >= 0 {
            ((sum as u64) / 2) as i64
        } else {
            let mag: i64 = -sum;
            -(((mag as u64) / 2) as i64)
        };
        self.offset_us = Some(offset);
    }

    /// Translate a remote timestamp into a local monotonic instant:
    /// `remote_ts - offset`. Returns `None` before the first successful
    /// update, and `None` when the translated instant does not fit in `i64`.
    pub fn server_to_local_micros(&self, remote_ts: i64) -> (r: Option<i64>)
        ensures
            r == self.spec_translation(remote_ts),
    {
        match self.offset_us {
            None => None,
            Some(off) => remote_ts.checked_sub(off),
        }
    }
}

} // verus!
