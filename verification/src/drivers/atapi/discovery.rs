//! The search for an ATAPI drive on the two buses.

use super::ATABus;
use super::ATABusView;
use super::PortRequest;
use super::ATAPI_SIG_LBA_HI;
use super::ATAPI_SIG_LBA_LO;
use super::ATAPI_SIG_LBA_MI;
use super::ATAPI_SIG_SC;
use super::ATA_BUS_PRIMARY;
use super::ATA_BUS_SECONDARY;
use super::ATA_DRIVE_MASTER;
use super::ATA_DRIVE_SLAVE;
use super::ATA_SRST;
use super::REG_DCR;
use super::REG_DRIVE_SELECT;
use super::REG_SECTOR_COUNT;
use vstd::prelude::*;

verus! {

/// The four (bus, drive) pairs in the order they are probed.
pub open spec fn candidate(index: int) -> (u16, u8) {
    if index == 0 {
        (ATA_BUS_PRIMARY, ATA_DRIVE_MASTER)
    } else if index == 1 {
        (ATA_BUS_PRIMARY, ATA_DRIVE_SLAVE)
    } else if index == 2 {
        (ATA_BUS_SECONDARY, ATA_DRIVE_MASTER)
    } else {
        (ATA_BUS_SECONDARY, ATA_DRIVE_SLAVE)
    }
}

/// Number of port accesses that probe one candidate.
pub const PROBE_STEPS: u8 = 11;

/// The access number `step` of the probe of the drive `drive` on the bus at
/// `base`: reset the bus (write SRST, then zero, to device control), select
/// the drive, let 400 ns pass by reading device control four times, then
/// read the four signature registers.
pub open spec fn probe_request(base: u16, drive: u8, step: int) -> PortRequest {
    if step == 0 {
        PortRequest::Write8 { port: (base + REG_DCR) as u16, value: ATA_SRST }
    } else if step == 1 {
        PortRequest::Write8 { port: (base + REG_DCR) as u16, value: 0 }
    } else if step == 2 {
        PortRequest::Write8 { port: (base + REG_DRIVE_SELECT) as u16, value: drive }
    } else if step < 7 {
        PortRequest::Read8 { port: (base + REG_DCR) as u16 }
    } else {
        PortRequest::Read8 { port: (base + REG_SECTOR_COUNT + (step - 7)) as u16 }
    }
}

/// Whether the four signature bytes are those of an ATAPI drive.
pub open spec fn is_atapi_signature(sig: Seq<u8>) -> bool {
    sig =~= seq![ATAPI_SIG_SC, ATAPI_SIG_LBA_LO, ATAPI_SIG_LBA_MI, ATAPI_SIG_LBA_HI]
}

/// What a discovery holds.
pub struct DiscoveryView {
    /// Which candidate is probed; four when none is left.
    pub index: int,
    /// Which access of the probe is out.
    pub step: int,
    /// The signature bytes read so far.
    pub sig: Seq<u8>,
    /// Whether the candidate answered with the ATAPI signature.
    pub found: bool,
}

/// What a discovery asks for or ends with.
#[derive(Debug, Clone, Copy)]
pub enum ProbeStep {
    /// Perform this access and hand what was read to `reply`.
    Io(PortRequest),
    /// This drive answered with the ATAPI signature.
    Found(ATABus),
    /// No candidate did.
    Absent,
}

/// A `ProbeStep` with base port and drive-select byte for the handle.
pub enum ProbeStepView {
    /// Perform this access.
    Io(PortRequest),
    /// The drive on this bus with this drive-select byte.
    Found(u16, u8),
    /// No candidate answered with the signature.
    Absent,
}

impl ProbeStep {
    /// That the step is `view`, with a fresh handle of the drive found.
    pub open spec fn shows(&self, view: ProbeStepView) -> bool {
        match view {
            ProbeStepView::Io(request) => *self matches ProbeStep::Io(r) && r == request,
            ProbeStepView::Found(base, drive) => *self matches ProbeStep::Found(bus) && bus@ == (
            ATABusView { base_port: base, current_drive: drive, block: Seq::new(2048, |i: int| 0u8) }),
            ProbeStepView::Absent => *self is Absent,
        }
    }
}

/// The search for an ATAPI drive: the candidates are probed in order and the
/// first that answers with the signature wins.
pub struct Discovery {
    index: u8,
    step: u8,
    sig: [u8; 4],
    found: bool,
}

impl View for Discovery {
    type V = DiscoveryView;

    closed spec fn view(&self) -> DiscoveryView {
        DiscoveryView {
            index: self.index as int,
            step: self.step as int,
            sig: self.sig@.take(
                if self.step < 7 {
                    0
                } else {
                    self.step - 7
                },
            ),
            found: self.found,
        }
    }
}

impl DiscoveryView {
    /// What the discovery asks for next.
    pub open spec fn request(self) -> ProbeStepView {
        if self.found {
            ProbeStepView::Found(candidate(self.index).0, candidate(self.index).1)
        } else if self.index >= 4 {
            ProbeStepView::Absent
        } else {
            ProbeStepView::Io(
                probe_request(candidate(self.index).0, candidate(self.index).1, self.step),
            )
        }
    }

    /// The discovery after `value` came back from the access that was out:
    /// a signature byte is kept; after the last one the candidate is taken
    /// if the signature is that of an ATAPI drive, else the next candidate
    /// is probed.
    pub open spec fn after_reply(self, value: u8) -> DiscoveryView {
        if self.found || self.index >= 4 {
            self
        } else if self.step < 7 {
            DiscoveryView { step: self.step + 1, ..self }
        } else if self.step < 10 {
            DiscoveryView { step: self.step + 1, sig: self.sig.push(value), ..self }
        } else if is_atapi_signature(self.sig.push(value)) {
            DiscoveryView { found: true, step: 11, sig: self.sig.push(value), ..self }
        } else {
            DiscoveryView { index: self.index + 1, step: 0, sig: Seq::empty(), ..self }
        }
    }

    /// The discovery after the values `values` came back, one after the
    /// other.
    pub open spec fn after_replies(self, values: Seq<u8>) -> DiscoveryView
        decreases values.len(),
    {
        if values.len() == 0 {
            self
        } else {
            self.after_reply(values[0]).after_replies(values.skip(1))
        }
    }

    /// A discovery that is about to probe the candidate `index`.
    pub open spec fn probing(index: int) -> DiscoveryView {
        DiscoveryView { index, step: 0, sig: Seq::empty(), found: false }
    }

    /// The probe of one candidate takes eleven accesses. It finds the
    /// candidate if the last four values are the ATAPI signature, and goes
    /// on to the next candidate if they are not.
    pub proof fn lemma_probe(index: int, values: Seq<u8>)
        requires
            0 <= index < 4,
            values.len() == 11,
        ensures
            Self::probing(index).after_replies(values) == if is_atapi_signature(
                values.subrange(7, 11),
            ) {
                DiscoveryView { index, step: 11, sig: values.subrange(7, 11), found: true }
            } else {
                Self::probing(index + 1)
            },
    {
        let s0 = Self::probing(index);
        let s1 = s0.after_reply(values[0]);
        let s2 = s1.after_reply(values[1]);
        let s3 = s2.after_reply(values[2]);
        let s4 = s3.after_reply(values[3]);
        let s5 = s4.after_reply(values[4]);
        let s6 = s5.after_reply(values[5]);
        let s7 = s6.after_reply(values[6]);
        let s8 = s7.after_reply(values[7]);
        let s9 = s8.after_reply(values[8]);
        let s10 = s9.after_reply(values[9]);
        let s11 = s10.after_reply(values[10]);
        assert(s10.sig.push(values[10]) =~= values.subrange(7, 11));
        let v1 = values.skip(1);
        let v2 = v1.skip(1);
        let v3 = v2.skip(1);
        let v4 = v3.skip(1);
        let v5 = v4.skip(1);
        let v6 = v5.skip(1);
        let v7 = v6.skip(1);
        let v8 = v7.skip(1);
        let v9 = v8.skip(1);
        let v10 = v9.skip(1);
        let v11 = v10.skip(1);
        assert(s11.after_replies(v11) == s11);
        assert(s10.after_replies(v10) == s11);
        assert(s9.after_replies(v9) == s11);
        assert(s8.after_replies(v8) == s11);
        assert(s7.after_replies(v7) == s11);
        assert(s6.after_replies(v6) == s11);
        assert(s5.after_replies(v5) == s11);
        assert(s4.after_replies(v4) == s11);
        assert(s3.after_replies(v3) == s11);
        assert(s2.after_replies(v2) == s11);
        assert(s1.after_replies(v1) == s11);
        assert(s0.after_replies(values) == s11);
    }

    /// Taking the first `n` values one by one is taking them together.
    proof fn lemma_replies_unfold(view: DiscoveryView, values: Seq<u8>, n: int)
        requires
            0 <= n <= values.len(),
        ensures
            view.after_replies(values) == view.after_replies(values.take(n)).after_replies(
                values.skip(n),
            ),
        decreases n,
    {
        if n == 0 {
            assert(values.take(0) =~= Seq::<u8>::empty());
            assert(values.skip(0) =~= values);
        } else {
            let next = view.after_reply(values[0]);
            Self::lemma_replies_unfold(next, values.skip(1), n - 1);
            assert(values.take(n).skip(1) =~= values.skip(1).take(n - 1));
            assert(values.skip(1).skip(n - 1) =~= values.skip(n));
            assert(values.take(n)[0] == values[0]);
        }
    }

    /// Where no candidate answers with the ATAPI signature, the discovery
    /// ends after four probes without a drive.
    pub proof fn lemma_empty_bus(values: Seq<u8>)
        requires
            values.len() == 44,
            forall|c: int|
                0 <= c < 4 ==> !is_atapi_signature(#[trigger] values.subrange(11 * c + 7, 11 * c + 11)),
        ensures
            Self::probing(0).after_replies(values) == Self::probing(4),
            Self::probing(0).after_replies(values).request() == ProbeStepView::Absent,
    {
        Self::lemma_probes(values, 4);
        assert(values.take(44) =~= values);
    }

    /// The first candidate that answers with the ATAPI signature is the
    /// drive found.
    pub proof fn lemma_first_match_wins(values: Seq<u8>, winner: int)
        requires
            0 <= winner < 4,
            values.len() == 11 * (winner + 1),
            forall|c: int|
                0 <= c < winner ==> !is_atapi_signature(
                    #[trigger] values.subrange(11 * c + 7, 11 * c + 11),
                ),
            is_atapi_signature(values.subrange(11 * winner + 7, 11 * winner + 11)),
        ensures
            Self::probing(0).after_replies(values).request() == ProbeStepView::Found(
                candidate(winner).0,
                candidate(winner).1,
            ),
    {
        Self::lemma_probes(values, winner);
        Self::lemma_replies_unfold(Self::probing(0), values, 11 * winner);
        let last = values.skip(11 * winner);
        assert(last.subrange(7, 11) =~= values.subrange(11 * winner + 7, 11 * winner + 11));
        Self::lemma_probe(winner, last);
    }

    /// After `n` probes without the signature the next candidate is probed.
    proof fn lemma_probes(values: Seq<u8>, n: int)
        requires
            0 <= n <= 4,
            11 * n <= values.len(),
            forall|c: int|
                0 <= c < n ==> !is_atapi_signature(#[trigger] values.subrange(11 * c + 7, 11 * c + 11)),
        ensures
            Self::probing(0).after_replies(values.take(11 * n)) == Self::probing(n),
        decreases n,
    {
        if n == 0 {
            assert(values.take(0) =~= Seq::<u8>::empty());
        } else {
            Self::lemma_probes(values, n - 1);
            let upto = values.take(11 * n);
            Self::lemma_replies_unfold(Self::probing(0), upto, 11 * (n - 1));
            assert(upto.take(11 * (n - 1)) =~= values.take(11 * (n - 1)));
            let last = upto.skip(11 * (n - 1));
            assert(last.subrange(7, 11) =~= values.subrange(11 * (n - 1) + 7, 11 * (n - 1) + 11));
            Self::lemma_probe(n - 1, last);
        }
    }
}

/// The (bus, drive) pair number `index` of the probe order.
pub fn candidate_at(index: u8) -> (pair: (u16, u8))
    ensures
        pair == candidate(index as int),
{
    if index == 0 {
        (ATA_BUS_PRIMARY, ATA_DRIVE_MASTER)
    } else if index == 1 {
        (ATA_BUS_PRIMARY, ATA_DRIVE_SLAVE)
    } else if index == 2 {
        (ATA_BUS_SECONDARY, ATA_DRIVE_MASTER)
    } else {
        (ATA_BUS_SECONDARY, ATA_DRIVE_SLAVE)
    }
}

impl Discovery {
    #[verifier::type_invariant]
    closed spec fn inv(&self) -> bool {
        &&& self.index <= 4
        &&& self.step <= 11
        &&& self.found ==> self.index < 4
        &&& !self.found ==> self.step <= 10
    }

    /// A discovery that is about to probe the first candidate.
    pub fn new() -> (discovery: Self)
        ensures
            discovery@ == (DiscoveryView { index: 0, step: 0, sig: Seq::empty(), found: false }),
    {
        let discovery = Discovery { index: 0, step: 0, sig: [0u8;4], found: false };
        assert(discovery@.sig =~= Seq::<u8>::empty());
        discovery
    }

    /// What the discovery asks for next, or what it ended with.
    pub fn request(&self) -> (step: ProbeStep)
        ensures
            step.shows(self@.request()),
    {
        proof {
            use_type_invariant(self);
        }
        if self.index >= 4 {
            return ProbeStep::Absent;
        }
        let (base, drive) = candidate_at(self.index);
        if self.found {
            let mut bus = ATABus::new(base);
            bus.select_drive(drive);
            return ProbeStep::Found(bus);
        }
        let request = if self.step == 0 {
            PortRequest::Write8 { port: base + REG_DCR, value: ATA_SRST }
        } else if self.step == 1 {
            PortRequest::Write8 { port: base + REG_DCR, value: 0 }
        } else if self.step == 2 {
            PortRequest::Write8 { port: base + REG_DRIVE_SELECT, value: drive }
        } else if self.step < 7 {
            PortRequest::Read8 { port: base + REG_DCR }
        } else {
            PortRequest::Read8 { port: base + REG_SECTOR_COUNT + (self.step - 7) as u16 }
        };
        ProbeStep::Io(request)
    }

    /// Takes what came back from the access that was out.
    pub fn reply(&mut self, value: u8)
        ensures
            final(self)@ == old(self)@.after_reply(value),
    {
        proof {
            use_type_invariant(&*self);
        }
        if self.found || self.index >= 4 {
            return ;
        }
        if self.step < 7 {
            self.step = self.step + 1;
            assert(self@.sig =~= old(self)@.sig);
            return ;
        }
        let at = (self.step - 7) as usize;
        self.sig[at] = value;
        assert(self.sig@.take(at + 1) =~= old(self)@.sig.push(value));
        if self.step < 10 {
            self.step = self.step + 1;
        } else if is_atapi(&self.sig) {
            assert(self.sig@.take(4) =~= self.sig@);
            self.found = true;
            self.step = 11;
        } else {
            assert(self.sig@.take(4) =~= self.sig@);
            self.index = self.index + 1;
            self.step = 0;
            assert(self@.sig =~= Seq::<u8>::empty());
        }
    }
}

/// Whether the four signature bytes are those of an ATAPI drive.
pub fn is_atapi(sig: &[u8; 4]) -> (b: bool)
    ensures
        b == is_atapi_signature(sig@),
{
    sig[0] == ATAPI_SIG_SC && sig[1] == ATAPI_SIG_LBA_LO && sig[2] == ATAPI_SIG_LBA_MI && sig[3]
        == ATAPI_SIG_LBA_HI
}

} // verus!
