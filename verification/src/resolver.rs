//! The device resolver: which serial port holds an acquisition device, and
//! with what framing. The probing is a function from state and event to next
//! state and action; the caller owns the ports and the clock.

use vstd::prelude::*;
use crate::handshake::{identified, identify};
use crate::profile::{DeviceProfile, LinkSettings, ProfileModel, UsbIds};
use crate::text::{contains_text, text_contains};

verus! {

/// How long an attempt to open a candidate port may take.
pub const PROBE_OPEN_TIMEOUT_MS: u64 = 3000;

/// How long a board is given to reset once its port is open.
pub const RESET_SETTLE_MS: u64 = 3000;

/// How long a candidate is given to answer the identification command.
pub const HANDSHAKE_TIMEOUT_MS: u64 = 10000;

/// How long the resolver waits once every candidate has been tried.
pub const RETRY_BACKOFF_MS: u64 = 5000;

/// A serial-like endpoint, as the operating system lists it.
#[derive(Clone, Debug, PartialEq, Eq)]
pub struct PortCandidate {
    pub name: String,
    pub usb: Option<UsbIds>,
}

/// The mathematical value of a [`PortCandidate`].
pub struct CandidateModel {
    pub name: Seq<char>,
    pub usb: Option<UsbIds>,
}

impl View for PortCandidate {
    type V = CandidateModel;

    open spec fn view(&self) -> CandidateModel {
        CandidateModel { name: self.name@, usb: self.usb }
    }
}

/// The values of a list of candidates.
pub open spec fn candidate_models(ports: Seq<PortCandidate>) -> Seq<CandidateModel> {
    ports.map_values(|port: PortCandidate| port@)
}

/// Whether a port of this name is a virtual Bluetooth or console port, which
/// is never probed.
pub open spec fn excluded_name(name: Seq<char>) -> bool {
    ||| text_contains(name, "BLTH"@)
    ||| text_contains(name, "Bluetooth"@)
    ||| text_contains(name, "console"@)
}

/// Whether a port of this name is a virtual Bluetooth or console port.
pub fn port_is_excluded(name: &str) -> (excluded: bool)
    ensures
        excluded == excluded_name(name@),
{
    contains_text(name, "BLTH") || contains_text(name, "Bluetooth") || contains_text(
        name,
        "console",
    )
}

/// The first candidate at or after `from` that is to be probed; the length of
/// the list where there is none.
pub open spec fn next_eligible(candidates: Seq<CandidateModel>, from: int) -> int
    decreases candidates.len() - from,
{
    if from < 0 || from >= candidates.len() {
        candidates.len() as int
    } else if !excluded_name(candidates[from].name) {
        from
    } else {
        next_eligible(candidates, from + 1)
    }
}

/// What the caller is to do next.
#[derive(Clone, Copy, Debug, PartialEq, Eq, Structural)]
pub enum ProbeAction {
    /// Nothing: the signal does not belong to the step under way.
    Ignore,
    /// List the ports, then report them.
    ListPorts,
    /// Close the probe connection if one is open, then open the candidate
    /// with this index in the list last reported.
    Open { candidate: usize, baud_rate: u32, timeout_ms: u64 },
    /// Wait for the board to reset, then write the identification command
    /// and flush.
    Identify { settle_ms: u64 },
    /// Read what the device answers, and say how long it has been since the
    /// command went out.
    Read,
    /// Close the probe connection if one is open, wait, then report
    /// `BackoffElapsed`.
    Wait { backoff_ms: u64 },
    /// Close the probe connection: the device is on the candidate with this
    /// index.
    Found { candidate: usize },
    /// The ports cannot be listed: hand the failure to the collaborator.
    Abort,
}

/// What the caller reports to the resolver, apart from the ports and the
/// bytes it read.
#[derive(Clone, Copy, Debug, PartialEq, Eq, Structural)]
pub enum ProbeSignal {
    ListFailed,
    Opened,
    OpenFailed,
    Written,
    WriteFailed,
    ReadTimedOut { elapsed_ms: u64 },
    ReadFailed,
    BackoffElapsed,
}

/// The state of the resolver.
pub enum ProbeModel {
    /// Waiting for the list of ports.
    Listing,
    /// Waiting for the candidate to open.
    Opening { candidates: Seq<CandidateModel>, index: int },
    /// Waiting for the identification command to go out.
    Identifying { candidates: Seq<CandidateModel>, index: int },
    /// Waiting for the answer; `response` is what has arrived of it.
    Reading { candidates: Seq<CandidateModel>, index: int, response: Seq<u8> },
    /// Waiting before the ports are listed again.
    Backoff,
    /// The device is found.
    Found { candidates: Seq<CandidateModel>, index: int, profile: ProfileModel },
    /// The ports could not be listed.
    Failed,
}

/// The link settings of the candidate with this index: those that its own
/// USB identifiers call for, whatever was probed before it.
pub open spec fn link_of(candidates: Seq<CandidateModel>, index: int) -> LinkSettings {
    LinkSettings::for_port(candidates[index].usb)
}

/// Where the resolver goes, and what it asks for, when the candidates before
/// `from` are done with: the next one that is to be probed is opened, with the
/// link settings of that candidate; where there is none, the resolver waits
/// and starts over.
pub open spec fn probe_from(candidates: Seq<CandidateModel>, from: int) -> (ProbeModel, ProbeAction) {
    let index = next_eligible(candidates, from);
    if index < candidates.len() {
        (
            ProbeModel::Opening { candidates, index },
            ProbeAction::Open {
                candidate: index as usize,
                baud_rate: link_of(candidates, index).baud_rate,
                timeout_ms: PROBE_OPEN_TIMEOUT_MS,
            },
        )
    } else {
        (ProbeModel::Backoff, ProbeAction::Wait { backoff_ms: RETRY_BACKOFF_MS })
    }
}

/// The step on a fresh list of ports.
pub open spec fn on_ports(state: ProbeModel, ports: Seq<CandidateModel>) -> (ProbeModel, ProbeAction) {
    match state {
        ProbeModel::Listing => probe_from(ports, 0),
        _ => (state, ProbeAction::Ignore),
    }
}

/// The step on bytes read from the candidate, `elapsed_ms` after the command
/// went out: a token of the closed set in what has arrived so far ends the
/// search; else the resolver reads on until the handshake timeout, then turns
/// to the next candidate.
pub open spec fn on_data(state: ProbeModel, bytes: Seq<u8>, elapsed_ms: u64) -> (
    ProbeModel,
    ProbeAction,
) {
    match state {
        ProbeModel::Reading { candidates, index, response } => {
            let so_far = response + bytes;
            match identified(so_far) {
                Some(preset) => (
                    ProbeModel::Found {
                        candidates,
                        index,
                        profile: ProfileModel::serial(
                            preset.frame_size(),
                            preset.channel_count(),
                            link_of(candidates, index),
                        ),
                    },
                    ProbeAction::Found { candidate: index as usize },
                ),
                None => if elapsed_ms >= HANDSHAKE_TIMEOUT_MS {
                    probe_from(candidates, index + 1)
                } else {
                    (ProbeModel::Reading { candidates, index, response: so_far }, ProbeAction::Read)
                },
            }
        },
        _ => (state, ProbeAction::Ignore),
    }
}

/// The step on any other report.
pub open spec fn on_signal(state: ProbeModel, signal: ProbeSignal) -> (ProbeModel, ProbeAction) {
    match (state, signal) {
        (ProbeModel::Listing, ProbeSignal::ListFailed) => (ProbeModel::Failed, ProbeAction::Abort),
        (ProbeModel::Opening { candidates, index }, ProbeSignal::Opened) => (
            ProbeModel::Identifying { candidates, index },
            ProbeAction::Identify { settle_ms: RESET_SETTLE_MS },
        ),
        (ProbeModel::Opening { candidates, index }, ProbeSignal::OpenFailed) => probe_from(
            candidates,
            index + 1,
        ),
        (ProbeModel::Identifying { candidates, index }, ProbeSignal::Written) => (
            ProbeModel::Reading { candidates, index, response: seq![] },
            ProbeAction::Read,
        ),
        (ProbeModel::Identifying { candidates, index }, ProbeSignal::WriteFailed) => probe_from(
            candidates,
            index + 1,
        ),
        (
            ProbeModel::Reading { candidates, index, response },
            ProbeSignal::ReadTimedOut { elapsed_ms },
        ) => if elapsed_ms >= HANDSHAKE_TIMEOUT_MS {
            probe_from(candidates, index + 1)
        } else {
            (state, ProbeAction::Read)
        },
        (ProbeModel::Reading { candidates, index, response }, ProbeSignal::ReadFailed) => probe_from(
            candidates,
            index + 1,
        ),
        (ProbeModel::Backoff, ProbeSignal::BackoffElapsed) => (
            ProbeModel::Listing,
            ProbeAction::ListPorts,
        ),
        _ => (state, ProbeAction::Ignore),
    }
}

/// Where the resolver stands, without what it holds.
#[derive(Clone, Copy, Debug, PartialEq, Eq, Structural)]
pub enum ProbeStage {
    Listing,
    Opening,
    Identifying,
    Reading,
    Backoff,
    Found,
    Failed,
}

/// The resolver of one search for a device.
pub struct Resolver {
    stage: ProbeStage,
    candidates: Vec<PortCandidate>,
    index: usize,
    response: Vec<u8>,
    profile: Option<DeviceProfile>,
}

impl View for Resolver {
    type V = ProbeModel;

    closed spec fn view(&self) -> ProbeModel {
        let candidates = candidate_models(self.candidates@);
        let index = self.index as int;
        match self.stage {
            ProbeStage::Listing => ProbeModel::Listing,
            ProbeStage::Opening => ProbeModel::Opening { candidates, index },
            ProbeStage::Identifying => ProbeModel::Identifying { candidates, index },
            ProbeStage::Reading => ProbeModel::Reading {
                candidates,
                index,
                response: self.response@,
            },
            ProbeStage::Backoff => ProbeModel::Backoff,
            ProbeStage::Found => ProbeModel::Found {
                candidates,
                index,
                profile: self.profile->0@,
            },
            ProbeStage::Failed => ProbeModel::Failed,
        }
    }
}

impl Resolver {
    #[verifier::type_invariant]
    spec fn well_formed(self) -> bool {
        &&& (self.stage is Opening || self.stage is Identifying || self.stage is Reading
            || self.stage is Found) ==> self.index < self.candidates@.len()
        &&& self.stage is Found ==> self.profile is Some
    }

    /// A resolver that waits for the first list of ports.
    pub fn new() -> (resolver: Resolver)
        ensures
            resolver@ == ProbeModel::Listing,
    {
        Resolver {
            stage: ProbeStage::Listing,
            candidates: Vec::new(),
            index: 0,
            response: Vec::new(),
            profile: None,
        }
    }

    /// Turns to the first candidate at or after `from` that is to be probed.
    fn probe(&mut self, candidates: Vec<PortCandidate>, from: usize) -> (action: ProbeAction)
        requires
            from <= candidates@.len(),
            !(old(self).stage is Found),
        ensures
            (final(self)@, action) == probe_from(candidate_models(candidates@), from as int),
    {
        proof {
            use_type_invariant(&*self);
        }
        let ghost models = candidate_models(candidates@);
        let total: usize = candidates.len();
        let mut index: usize = from;
        while index < total && port_is_excluded(candidates[index].name.as_str())
            invariant
                from <= index <= total,
                total == candidates@.len(),
                models == candidate_models(candidates@),
                next_eligible(models, from as int) == next_eligible(models, index as int),
            decreases total - index,
        {
            assert(models[index as int] == candidates@[index as int]@);
            index += 1;
        }
        if index < total {
            assert(models[index as int] == candidates@[index as int]@);
            let settings = LinkSettings::for_port(candidates[index].usb);
            self.stage = ProbeStage::Backoff;
            self.candidates = candidates;
            self.index = index;
            self.stage = ProbeStage::Opening;
            ProbeAction::Open {
                candidate: index,
                baud_rate: settings.baud_rate,
                timeout_ms: PROBE_OPEN_TIMEOUT_MS,
            }
        } else {
            self.stage = ProbeStage::Backoff;
            ProbeAction::Wait { backoff_ms: RETRY_BACKOFF_MS }
        }
    }

    /// Gives up the candidate under way and turns to the next one that is to
    /// be probed.
    fn probe_next(&mut self) -> (action: ProbeAction)
        requires
            old(self).stage is Opening || old(self).stage is Identifying || old(self).stage
                is Reading,
        ensures
            (final(self)@, action) == probe_from(
                candidate_models(old(self).candidates@),
                old(self).index + 1,
            ),
    {
        proof {
            use_type_invariant(&*self);
        }
        let done: usize = self.index;
        self.stage = ProbeStage::Backoff;
        let mut candidates: Vec<PortCandidate> = Vec::new();
        core::mem::swap(&mut self.candidates, &mut candidates);
        let next: usize = if done < candidates.len() {
            done + 1
        } else {
            candidates.len()
        };
        self.probe(candidates, next)
    }

    /// Takes the list of ports that the caller was asked for.
    pub fn ports_listed(&mut self, ports: Vec<PortCandidate>) -> (action: ProbeAction)
        ensures
            (final(self)@, action) == on_ports(old(self)@, candidate_models(ports@)),
    {
        match self.stage {
            ProbeStage::Listing => self.probe(ports, 0),
            _ => ProbeAction::Ignore,
        }
    }

    /// Takes the bytes of one read, `elapsed_ms` after the identification
    /// command went out.
    pub fn data(&mut self, bytes: &[u8], elapsed_ms: u64) -> (action: ProbeAction)
        ensures
            (final(self)@, action) == on_data(old(self)@, bytes@, elapsed_ms),
    {
        proof {
            use_type_invariant(&*self);
        }
        match self.stage {
            ProbeStage::Reading => {
                let mut response: Vec<u8> = Vec::new();
                core::mem::swap(&mut self.response, &mut response);
                response.extend_from_slice(bytes);
                assert(response@ == old(self).response@ + bytes@);
                match identify(response.as_slice()) {
                    Some(preset) => {
                        assert(candidate_models(self.candidates@)[self.index as int]
                            == self.candidates@[self.index as int]@);
                        let link = LinkSettings::for_port(self.candidates[self.index].usb);
                        self.profile = Some(DeviceProfile::serial(preset, link));
                        self.stage = ProbeStage::Found;
                        ProbeAction::Found { candidate: self.index }
                    },
                    None => {
                        if elapsed_ms >= HANDSHAKE_TIMEOUT_MS {
                            self.probe_next()
                        } else {
                            self.response = response;
                            ProbeAction::Read
                        }
                    },
                }
            },
            _ => ProbeAction::Ignore,
        }
    }

    /// Takes any other report of the caller.
    pub fn signal(&mut self, signal: ProbeSignal) -> (action: ProbeAction)
        ensures
            (final(self)@, action) == on_signal(old(self)@, signal),
    {
        proof {
            use_type_invariant(&*self);
        }
        match (self.stage, signal) {
            (ProbeStage::Listing, ProbeSignal::ListFailed) => {
                self.stage = ProbeStage::Failed;
                ProbeAction::Abort
            },
            (ProbeStage::Opening, ProbeSignal::Opened) => {
                self.stage = ProbeStage::Identifying;
                ProbeAction::Identify { settle_ms: RESET_SETTLE_MS }
            },
            (ProbeStage::Identifying, ProbeSignal::Written) => {
                self.response = Vec::new();
                self.stage = ProbeStage::Reading;
                ProbeAction::Read
            },
            (ProbeStage::Reading, ProbeSignal::ReadTimedOut { elapsed_ms }) => {
                if elapsed_ms >= HANDSHAKE_TIMEOUT_MS {
                    self.probe_next()
                } else {
                    ProbeAction::Read
                }
            },
            (ProbeStage::Opening, ProbeSignal::OpenFailed)
            | (ProbeStage::Identifying, ProbeSignal::WriteFailed)
            | (ProbeStage::Reading, ProbeSignal::ReadFailed) => self.probe_next(),
            (ProbeStage::Backoff, ProbeSignal::BackoffElapsed) => {
                self.stage = ProbeStage::Listing;
                ProbeAction::ListPorts
            },
            _ => ProbeAction::Ignore,
        }
    }

    /// The profile of the device, once it is found.
    pub fn found_profile(&self) -> (profile: Option<DeviceProfile>)
        ensures
            profile is Some <==> self@ is Found,
            profile matches Some(p) ==> p@ == self@->Found_profile,
    {
        proof {
            use_type_invariant(self);
        }
        match self.stage {
            ProbeStage::Found => self.profile,
            _ => None,
        }
    }

    /// The name of the port that the device is on, once it is found.
    pub fn found_port(&self) -> (port: Option<String>)
        ensures
            port is Some <==> self@ is Found,
            port matches Some(name) ==> name@ == self@->Found_candidates[self@->Found_index].name,
    {
        proof {
            use_type_invariant(self);
        }
        match self.stage {
            ProbeStage::Found => {
                assert(candidate_models(self.candidates@)[self.index as int]
                    == self.candidates@[self.index as int]@);
                Some(self.candidates[self.index].name.clone())
            },
            _ => None,
        }
    }
}

} // verus!
