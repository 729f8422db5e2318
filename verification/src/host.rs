//! The host side of the boundary, as the bridge sees it.
//!
//! The host's dispatcher is an external collaborator: the bridge knows only
//! its calling convention and its answer. Under raw lowering the answer is a
//! machine-word status where zero denotes success; under interface lowering
//! it is an ok/error result with identical semantics. This module fixes those
//! two verdict readings, and provides a scripted, recording stand-in for the
//! dispatcher so that the bridge's call behaviour — how many boundary calls
//! are issued, with what contents, in what order — can be stated and checked
//! against an observer.

use vstd::prelude::*;

use crate::request::HostCallRequest;

verus! {

/// The interface-lowered boundary call's error value. The bridge never
/// inspects it: failure is binary, and no host-specific detail leaks through
/// to script code.
#[derive(Clone, Copy, PartialEq, Eq, Structural, Debug)]
pub struct HostFailure;

/// How the raw adapter reads a status word: success exactly at zero; every
/// nonzero value is a host-side failure, its specific value uninterpreted.
pub open spec fn raw_verdict(status: usize) -> bool {
    status == 0
}

/// The interface-level result a dispatcher answering `status` reports: the
/// two lowerings target the same dispatcher, so its ok/error answer carries
/// the same information as its status word.
pub open spec fn interface_result_of(status: usize) -> Result<(), HostFailure> {
    if status == 0 {
        Ok(())
    } else {
        Err(HostFailure)
    }
}

/// How the interface adapter reads the typed result: success exactly on `Ok`.
pub open spec fn interface_verdict(r: Result<(), HostFailure>) -> bool {
    r is Ok
}

/// A scripted dispatcher standing in for the host: it answers the `i`-th
/// boundary call it receives with `statuses[i]`, and records every request,
/// in arrival order, in `calls`. The record is the bridge's observable
/// boundary behaviour — a call-counting, order-preserving observer.
pub struct StubHost {
    /// The status each successive boundary call is answered with.
    pub statuses: Vec<usize>,
    /// Every request received so far, oldest first.
    pub calls: Vec<HostCallRequest>,
}

impl StubHost {
    /// A fresh stub that will answer with `statuses`, one per call, and has
    /// observed no call yet.
    pub fn new(statuses: Vec<usize>) -> (h: StubHost)
        ensures
            h.statuses == statuses,
            h.calls@ == Seq::<HostCallRequest>::empty(),
    {
        StubHost { statuses, calls: Vec::new() }
    }

    /// How many boundary calls this stub has observed.
    pub fn calls_observed(&self) -> (n: usize)
        ensures
            n == self.calls@.len(),
    {
        self.calls.len()
    }

    /// Receives one raw-lowered boundary call: records the request after all
    /// earlier ones and answers with the next scripted status. Exactly one
    /// record is appended per invocation.
    pub fn dispatch_raw(&mut self, req: HostCallRequest) -> (status: usize)
        requires
            old(self).calls@.len() < old(self).statuses@.len(),
        ensures
            final(self).calls@ == old(self).calls@.push(req),
            final(self).statuses == old(self).statuses,
            status == old(self).statuses@[old(self).calls@.len() as int],
    {
        let idx = self.calls.len();
        let status = self.statuses[idx];
        self.calls.push(req);
        status
    }

    /// Receives one interface-lowered boundary call: the same dispatcher as
    /// `dispatch_raw` — same recording, same scripted answer — but the answer
    /// is reported as the typed ok/error result that status denotes.
    pub fn dispatch_interface(&mut self, req: HostCallRequest) -> (r: Result<(), HostFailure>)
        requires
            old(self).calls@.len() < old(self).statuses@.len(),
        ensures
            final(self).calls@ == old(self).calls@.push(req),
            final(self).statuses == old(self).statuses,
            r == interface_result_of(old(self).statuses@[old(self).calls@.len() as int]),
    {
        let status = self.dispatch_raw(req);
        if status == 0 {
            Ok(())
        } else {
            Err(HostFailure)
        }
    }
}

} // verus!
