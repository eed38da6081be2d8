//! Driver core for the Broadcom VideoCore IV V3D 3D engine (Raspberry Pi
//! 0-3 and Zero 2W).
//!
//! * hardware bring-up: identity check, binner overflow memory, interrupts;
//! * the submission path: bin control list (BCL) and render control list
//!   (RCL) submission, cache flushing, and completion interrupts
//!   (`FLDONE` / `FRDONE`) with sequence-number tracking;
//! * command list builders for the clear-only job shape ([`cl`]).
//!
//! The job flow is that of the upstream Linux `vc4` driver (binner thread 0
//! then render thread 1), without the DRM layer: callers own the command
//! lists and the binner memory. Register accesses are returned as
//! [`RegOp`] lists relative to [`V3dResources::base`]; values read from the
//! hardware are passed in.

pub mod cl;
pub mod regs;

use vstd::prelude::*;
use crate::regops::RegOp;
use regs::{
    V3D_BPOA, V3D_BPOS, V3D_CTNCA, V3D_CTNEA, V3D_DRIVER_IRQS, V3D_EXPECTED_IDENT0, V3D_INTCTL,
    V3D_INTENA, V3D_INT_FLDONE, V3D_INT_FRDONE, V3D_L2CACTL, V3D_L2CACTL_L2CCLR, V3D_SLCACTL,
    V3D_SLCACTL_ICC, V3D_SLCACTL_T0CC, V3D_SLCACTL_T1CC, V3D_SLCACTL_UCC, V3D_VPMBASE,
};

verus! {

/// Resources supplied by the OS glue.
#[derive(Clone, Copy, Debug)]
pub struct V3dResources {
    /// ARM-view physical address of the V3D block (`0x3fc0_0000`).
    pub base: usize,
    /// Bus (physical) address of the binner memory (tile state + tile alloc
    /// + overflow). Must have constant top 4 bits across its whole extent.
    pub binner_bus_addr: u32,
    /// Size of the binner memory region in bytes.
    pub binner_size: u32,
    /// Binner overflow address register value (bus address of the overflow
    /// area, or 0 if overflow handling is not wired up yet).
    pub binner_overflow_addr: u32,
    /// Interrupt number (42 on BCM283x) if wired up.
    pub irq: Option<usize>,
}

/// Lifecycle state of the V3D core.
#[derive(Clone, Copy, Debug, PartialEq, Eq, Structural)]
pub enum V3dState {
    /// Hardware not yet brought up.
    Off,
    /// Hardware initialized and ready to accept jobs.
    Ready,
    /// A bin job is running on thread 0.
    Binning,
    /// A render job is running on thread 1.
    Rendering,
}

/// V3D 3D engine core.
pub struct V3dCore {
    resources: V3dResources,
    state: V3dState,
    seqno: u64,
    finished_seqno: u64,
}

/// The accesses that bring the engine up: all VPM memory to the driver,
/// binner overflow area, pending interrupts cleared, completion interrupts
/// enabled.
pub open spec fn init_ops(resources: V3dResources) -> Seq<RegOp> {
    seq![
        RegOp::Write { reg: V3D_VPMBASE, value: 0 },
        RegOp::Write { reg: V3D_BPOA, value: resources.binner_overflow_addr },
        RegOp::Write { reg: V3D_BPOS, value: resources.binner_size },
        RegOp::Write { reg: V3D_INTCTL, value: V3D_DRIVER_IRQS },
        RegOp::Write { reg: V3D_INTENA, value: V3D_INT_FLDONE | V3D_INT_FRDONE },
    ]
}

/// The accesses that flush the L2 and slice caches.
pub open spec fn flush_caches_ops() -> Seq<RegOp> {
    seq![
        RegOp::Write { reg: V3D_L2CACTL, value: V3D_L2CACTL_L2CCLR },
        RegOp::Write {
            reg: V3D_SLCACTL,
            value: V3D_SLCACTL_T1CC | V3D_SLCACTL_T0CC | V3D_SLCACTL_UCC | V3D_SLCACTL_ICC,
        },
    ]
}

/// The accesses that flush the texture caches only.
pub open spec fn flush_texture_caches_ops() -> Seq<RegOp> {
    seq![
        RegOp::Write { reg: V3D_L2CACTL, value: V3D_L2CACTL_L2CCLR },
        RegOp::Write { reg: V3D_SLCACTL, value: V3D_SLCACTL_T1CC | V3D_SLCACTL_T0CC },
    ]
}

/// The accesses that start a control list on `thread`: current address,
/// then end address (writing the end address starts the job).
pub open spec fn submit_ops(thread: u32, start: u32, end: u32) -> Seq<RegOp> {
    seq![
        RegOp::Write { reg: (V3D_CTNCA + thread * 4) as usize, value: start },
        RegOp::Write { reg: (V3D_CTNEA + thread * 4) as usize, value: end },
    ]
}

/// The state after a control list is started on `thread`.
pub open spec fn submit_state(thread: u32) -> V3dState {
    if thread == 0 {
        V3dState::Binning
    } else {
        V3dState::Rendering
    }
}

/// How many jobs an interrupt status reports as done: one for a finished
/// bin job (`FLDONE`), one for a finished render job (`FRDONE`).
pub open spec fn done_count(intctl: u32) -> int {
    (if intctl & V3D_INT_FLDONE != 0 {
        1int
    } else {
        0int
    }) + (if intctl & V3D_INT_FRDONE != 0 {
        1int
    } else {
        0int
    })
}

/// The last finished job after an interrupt with status `intctl`: jobs
/// finish in the order they were submitted, and only submitted jobs can
/// finish, so the count advances by the jobs reported done, up to the last
/// submitted one.
pub open spec fn irq_finished(seqno: u64, finished: u64, intctl: u32) -> u64 {
    if finished + done_count(intctl) <= seqno {
        (finished + done_count(intctl)) as u64
    } else {
        seqno
    }
}

/// The state after an interrupt with status `intctl` in state `s`, with
/// `finished` the last finished job afterwards: a finished render job
/// makes the core ready (whatever state it was in); otherwise a core that
/// is off stays off, a finished bin job with every submitted job done
/// makes the core ready, and a finished bin job moves binning to
/// rendering.
pub open spec fn irq_next_state(s: V3dState, intctl: u32, seqno: u64, finished: u64) -> V3dState {
    if intctl & V3D_INT_FRDONE != 0 {
        V3dState::Ready
    } else if s == V3dState::Off {
        s
    } else if intctl & V3D_INT_FLDONE != 0 && finished == seqno {
        V3dState::Ready
    } else if intctl & V3D_INT_FLDONE != 0 && s == V3dState::Binning {
        V3dState::Rendering
    } else {
        s
    }
}

/// What happens to the core, as its bookkeeping sees it.
#[derive(Clone, Copy, Debug, PartialEq, Eq, Structural)]
pub enum V3dEvent {
    /// Hardware bring-up.
    Init,
    /// A control list started on a thread.
    Submit(u32),
    /// An interrupt with the given status.
    Irq(u32),
    /// Anything that leaves the bookkeeping alone (cache flushes, interrupt
    /// controller reset).
    Other,
}

/// The bookkeeping: state, last submitted job, last finished job.
pub type V3dModel = (V3dState, u64, u64);

/// The bookkeeping after `e`. (A submission is made only when the core is
/// on and the sequence number can grow.)
pub open spec fn step(m: V3dModel, e: V3dEvent) -> V3dModel {
    match e {
        V3dEvent::Init => if m.0 == V3dState::Off {
            (V3dState::Ready, m.1, m.2)
        } else {
            m
        },
        V3dEvent::Submit(thread) => if m.0 != V3dState::Off && m.1 < u64::MAX {
            (submit_state(thread), (m.1 + 1) as u64, m.2)
        } else {
            m
        },
        V3dEvent::Irq(intctl) => if intctl == 0 {
            m
        } else {
            let f = irq_finished(m.1, m.2, intctl);
            (irq_next_state(m.0, intctl, m.1, f), m.1, f)
        },
        V3dEvent::Other => m,
    }
}

/// The bookkeeping after the events `es`, in order.
pub open spec fn run(m: V3dModel, es: Seq<V3dEvent>) -> V3dModel
    decreases es.len(),
{
    if es.len() == 0 {
        m
    } else {
        step(run(m, es.drop_last()), es.last())
    }
}

/// The accesses that reset the interrupt controller.
pub open spec fn irq_reset_ops() -> Seq<RegOp> {
    seq![
        RegOp::Write { reg: V3D_INTCTL, value: V3D_DRIVER_IRQS },
        RegOp::Write { reg: V3D_INTENA, value: V3D_DRIVER_IRQS },
    ]
}

impl V3dCore {
    /// The resources the core was created over.
    pub closed spec fn spec_resources(&self) -> V3dResources {
        self.resources
    }

    /// The lifecycle state.
    pub closed spec fn spec_state(&self) -> V3dState {
        self.state
    }

    /// The sequence number of the last submitted job.
    pub closed spec fn spec_seqno(&self) -> u64 {
        self.seqno
    }

    /// The sequence number of the last finished job.
    pub closed spec fn spec_finished_seqno(&self) -> u64 {
        self.finished_seqno
    }

    /// The bookkeeping: state, last submitted job, last finished job.
    pub open spec fn spec_model(&self) -> V3dModel {
        (self.spec_state(), self.spec_seqno(), self.spec_finished_seqno())
    }

    /// Only a submitted job can have finished.
    #[verifier::type_invariant]
    spec fn inv(&self) -> bool {
        self.finished_seqno <= self.seqno
    }

    /// The V3D clock rate requested from the firmware at bring-up.
    pub open spec fn clock_rate_hz() -> u32 {
        250_000_000
    }

    /// Creates a core over the given resources. Does not touch hardware.
    pub fn new(resources: V3dResources) -> (core: Self)
        ensures
            core.spec_resources() == resources,
            core.spec_state() == V3dState::Off,
            core.spec_seqno() == 0,
            core.spec_finished_seqno() == 0,
            core.spec_model() == (V3dState::Off, 0u64, 0u64),
    {
        Self { resources, state: V3dState::Off, seqno: 0, finished_seqno: 0 }
    }

    /// Whether `ident0` (the `V3D_IDENT0` register) identifies a V3D
    /// version 2 engine.
    pub fn ident_ok(ident0: u32) -> (ok: bool)
        ensures
            ok == (ident0 == V3D_EXPECTED_IDENT0),
    {
        ident0 == V3D_EXPECTED_IDENT0
    }

    /// Revision, slice count and QPU count from `V3D_IDENT1`.
    pub fn decode_ident1(ident1: u32) -> (fields: (u32, u32, u32))
        ensures
            fields == ((ident1 >> 0u32) & 0xf, (ident1 >> 4u32) & 0xf, (ident1 >> 8u32) & 0xf),
    {
        ((ident1 >> 0u32) & 0xf, (ident1 >> 4u32) & 0xf, (ident1 >> 8u32) & 0xf)
    }

    /// Brings up the hardware: clears the binner overflow configuration and
    /// enables the completion interrupts. `ident0` is the value read from
    /// `V3D_IDENT0` (after the request of [`Self::clock_request`] went to the
    /// firmware);
    /// it must identify the engine. Does nothing unless the core is off.
    pub fn init(&mut self, ident0: u32) -> (ops: Vec<RegOp>)
        requires
            old(self).spec_state() == V3dState::Off ==> ident0 == V3D_EXPECTED_IDENT0,
        ensures
            final(self).spec_resources() == old(self).spec_resources(),
            final(self).spec_seqno() == old(self).spec_seqno(),
            final(self).spec_finished_seqno() == old(self).spec_finished_seqno(),
            old(self).spec_state() != V3dState::Off ==> ops@ == Seq::<RegOp>::empty()
                && final(self).spec_state() == old(self).spec_state(),
            old(self).spec_state() == V3dState::Off ==> ops@ == init_ops(old(self).spec_resources())
                && final(self).spec_state() == V3dState::Ready,
            final(self).spec_model() == step(old(self).spec_model(), V3dEvent::Init),
    {
        proof {
            use_type_invariant(&*self);
        }
        let mut ops: Vec<RegOp> = Vec::new();
        if self.state != V3dState::Off {
            return ops;
        }
        // Take all memory that would have been reserved for user QPU
        // programs (no user QPU interface here).
        ops.push(RegOp::Write { reg: V3D_VPMBASE, value: 0 });
        // Reset the binner overflow address/size.
        ops.push(RegOp::Write { reg: V3D_BPOA, value: self.resources.binner_overflow_addr });
        ops.push(RegOp::Write { reg: V3D_BPOS, value: self.resources.binner_size });
        // Clear pending interrupts and enable completion interrupts.
        ops.push(RegOp::Write { reg: V3D_INTCTL, value: V3D_DRIVER_IRQS });
        ops.push(RegOp::Write { reg: V3D_INTENA, value: V3D_INT_FLDONE | V3D_INT_FRDONE });
        self.state = V3dState::Ready;
        assert(ops@ =~= init_ops(self.resources));
        ops
    }

    /// Flushes the V3D L2 and slice caches (as `vc4_flush_caches` does).
    pub fn flush_caches(&self) -> (ops: Vec<RegOp>)
        ensures
            ops@ == flush_caches_ops(),
    {
        let ops = vec![
            RegOp::Write { reg: V3D_L2CACTL, value: V3D_L2CACTL_L2CCLR },
            RegOp::Write {
                reg: V3D_SLCACTL,
                value: V3D_SLCACTL_T1CC | V3D_SLCACTL_T0CC | V3D_SLCACTL_UCC | V3D_SLCACTL_ICC,
            },
        ];
        assert(ops@ =~= flush_caches_ops());
        ops
    }

    /// Flushes only the texture caches (as `vc4_flush_texture_caches` does).
    pub fn flush_texture_caches(&self) -> (ops: Vec<RegOp>)
        ensures
            ops@ == flush_texture_caches_ops(),
    {
        let ops = vec![
            RegOp::Write { reg: V3D_L2CACTL, value: V3D_L2CACTL_L2CCLR },
            RegOp::Write { reg: V3D_SLCACTL, value: V3D_SLCACTL_T1CC | V3D_SLCACTL_T0CC },
        ];
        assert(ops@ =~= flush_texture_caches_ops());
        ops
    }

    /// Submits a control list to the given thread (0 = binner, 1 =
    /// renderer). Returns the job's sequence number and the accesses that
    /// start it; writing the end register is what starts the job.
    pub fn submit_cl(&mut self, thread: u32, start: u32, end: u32) -> (res: (u64, Vec<RegOp>))
        requires
            thread <= 1,
            old(self).spec_state() != V3dState::Off,
            old(self).spec_seqno() < u64::MAX,
        ensures
            final(self).spec_resources() == old(self).spec_resources(),
            final(self).spec_state() == submit_state(thread),
            final(self).spec_seqno() == old(self).spec_seqno() + 1,
            final(self).spec_finished_seqno() == old(self).spec_finished_seqno(),
            res.0 == final(self).spec_seqno(),
            res.1@ == submit_ops(thread, start, end),
            final(self).spec_model() == step(old(self).spec_model(), V3dEvent::Submit(thread)),
    {
        proof {
            use_type_invariant(&*self);
        }
        if thread == 0 {
            self.state = V3dState::Binning;
        } else {
            self.state = V3dState::Rendering;
        }
        self.seqno = self.seqno + 1;
        let seqno = self.seqno;
        let t = thread as usize;
        let ops = vec![
            RegOp::Write { reg: V3D_CTNCA + t * 4, value: start },
            RegOp::Write { reg: V3D_CTNEA + t * 4, value: end },
        ];
        assert(ops@ =~= submit_ops(thread, start, end));
        (seqno, ops)
    }

    /// Submits a full binned frame: the binner CL on thread 0 followed by
    /// the render CL on thread 1 (which waits for the binner). Without a
    /// binner CL, the render CL runs directly, after a texture cache flush.
    /// The caches are flushed first in both cases. Returns the sequence
    /// number of the first job submitted.
    pub fn submit_frame(&mut self, bin_cl: Option<(u32, u32)>, rcl: (u32, u32)) -> (res: (
        u64,
        Vec<RegOp>,
    ))
        requires
            old(self).spec_state() != V3dState::Off,
            old(self).spec_seqno() + (if bin_cl is Some {
                2int
            } else {
                1int
            }) <= u64::MAX,
        ensures
            final(self).spec_resources() == old(self).spec_resources(),
            final(self).spec_finished_seqno() == old(self).spec_finished_seqno(),
            final(self).spec_state() == V3dState::Rendering,
            res.0 == old(self).spec_seqno() + 1,
            final(self).spec_model() == (if bin_cl is Some {
                run(old(self).spec_model(), seq![V3dEvent::Submit(0), V3dEvent::Submit(1)])
            } else {
                step(old(self).spec_model(), V3dEvent::Submit(1))
            }),
            match bin_cl {
                Some((start, end)) => {
                    &&& final(self).spec_seqno() == old(self).spec_seqno() + 2
                    &&& res.1@ == flush_caches_ops() + submit_ops(0, start, end) + submit_ops(
                        1,
                        rcl.0,
                        rcl.1,
                    )
                },
                None => {
                    &&& final(self).spec_seqno() == old(self).spec_seqno() + 1
                    &&& res.1@ == flush_caches_ops() + flush_texture_caches_ops() + submit_ops(
                        1,
                        rcl.0,
                        rcl.1,
                    )
                },
            },
    {
        let ghost m0 = self.spec_model();
        proof {
            let es = seq![V3dEvent::Submit(0), V3dEvent::Submit(1)];
            assert(es.drop_last() =~= seq![V3dEvent::Submit(0)]);
            assert(seq![V3dEvent::Submit(0)].drop_last() =~= Seq::<V3dEvent>::empty());
            assert(run(m0, Seq::<V3dEvent>::empty()) == m0);
            assert(run(m0, seq![V3dEvent::Submit(0)]) == step(m0, V3dEvent::Submit(0)));
            assert(run(m0, es) == step(step(m0, V3dEvent::Submit(0)), V3dEvent::Submit(1)));
        }
        let mut ops = self.flush_caches();
        match bin_cl {
            Some((start, end)) => {
                let (seqno, mut bin_ops) = self.submit_cl(0, start, end);
                let (_, mut render_ops) = self.submit_cl(1, rcl.0, rcl.1);
                ops.append(&mut bin_ops);
                ops.append(&mut render_ops);
                (seqno, ops)
            },
            None => {
                // No binning needed: run the RCL directly on the render thread.
                let mut tex_ops = self.flush_texture_caches();
                ops.append(&mut tex_ops);
                let (seqno, mut render_ops) = self.submit_cl(1, rcl.0, rcl.1);
                ops.append(&mut render_ops);
                (seqno, ops)
            },
        }
    }

    /// Handles the V3D interrupt, given the value read from `V3D_INTCTL`;
    /// returns the handled interrupt mask and the acknowledging access
    /// (write-1-to-clear). Each finished bin or render job counts as the
    /// next finished job; a report with no job outstanding counts nothing.
    pub fn handle_irq(&mut self, intctl: u32) -> (res: (u32, Vec<RegOp>))
        ensures
            final(self).spec_resources() == old(self).spec_resources(),
            final(self).spec_seqno() == old(self).spec_seqno(),
            res.0 == intctl,
            intctl == 0 ==> res.1@ == Seq::<RegOp>::empty(),
            intctl != 0 ==> res.1@ == seq![RegOp::Write { reg: V3D_INTCTL, value: intctl }],
            final(self).spec_model() == step(old(self).spec_model(), V3dEvent::Irq(intctl)),
            final(self).spec_finished_seqno() <= final(self).spec_seqno(),
    {
        proof {
            use_type_invariant(&*self);
        }
        let mut ops: Vec<RegOp> = Vec::new();
        if intctl == 0 {
            return (0, ops);
        }
        // Acknowledge (write-1-to-clear).
        ops.push(RegOp::Write { reg: V3D_INTCTL, value: intctl });
        let mut done: u64 = 0;
        if intctl & V3D_INT_FLDONE != 0 {
            done = done + 1;
        }
        if intctl & V3D_INT_FRDONE != 0 {
            done = done + 1;
        }
        let outstanding = self.seqno - self.finished_seqno;
        let finished = if done <= outstanding {
            self.finished_seqno + done
        } else {
            self.seqno
        };
        if intctl & V3D_INT_FRDONE != 0 {
            self.state = V3dState::Ready;
        } else if self.state != V3dState::Off {
            if intctl & V3D_INT_FLDONE != 0 && finished == self.seqno {
                self.state = V3dState::Ready;
            } else if intctl & V3D_INT_FLDONE != 0 && self.state == V3dState::Binning {
                self.state = V3dState::Rendering;
            }
        }
        self.finished_seqno = finished;
        assert(ops@ =~= seq![RegOp::Write { reg: V3D_INTCTL, value: intctl }]);
        (intctl, ops)
    }

    /// Whether the job with sequence number `seqno` has finished; waiting
    /// for it is polling this until it holds.
    pub fn wait_for_seqno(&self, seqno: u64) -> (done: bool)
        ensures
            done == (seqno <= self.spec_finished_seqno()),
    {
        !(self.finished_seqno < seqno)
    }

    /// Sequence number of the last submitted job.
    pub fn seqno(&self) -> (n: u64)
        ensures
            n == self.spec_seqno(),
    {
        self.seqno
    }

    /// Sequence number of the last finished job; never past the last
    /// submitted one.
    pub fn finished_seqno(&self) -> (n: u64)
        ensures
            n == self.spec_finished_seqno(),
            n <= self.spec_seqno(),
    {
        proof {
            use_type_invariant(self);
        }
        self.finished_seqno
    }

    /// The firmware request for the V3D clock that bring-up makes before
    /// reading the identity register: clock 5 at 250 MHz. Only a core that
    /// is still off asks for it.
    pub fn clock_request(&self) -> (req: Option<crate::mailbox::PropertyRequest>)
        ensures
            req is Some <==> self.spec_state() == V3dState::Off,
            req matches Some(r) ==> r.words@ == crate::mailbox::property_words(
                crate::mailbox::TAG_CLOCK_SET_RATE,
                seq![crate::mailbox::CLK_V3D, Self::clock_rate_hz(), 0u32],
            ) && r.total_bytes == 36,
    {
        if self.state == V3dState::Off {
            Some(crate::mailbox::set_clock_rate(crate::mailbox::CLK_V3D, 250_000_000))
        } else {
            None
        }
    }

    /// Current lifecycle state.
    pub fn state(&self) -> (s: V3dState)
        ensures
            s == self.spec_state(),
    {
        self.state
    }

    /// The resources the core was created over.
    pub fn resources(&self) -> (r: V3dResources)
        ensures
            r == self.spec_resources(),
    {
        self.resources
    }

    /// Resets the interrupt controller state (used after a hang).
    pub fn irq_reset(&mut self) -> (ops: Vec<RegOp>)
        ensures
            final(self).spec_resources() == old(self).spec_resources(),
            final(self).spec_state() == old(self).spec_state(),
            final(self).spec_seqno() == old(self).spec_seqno(),
            final(self).spec_finished_seqno() == old(self).spec_finished_seqno(),
            ops@ == irq_reset_ops(),
            final(self).spec_model() == step(old(self).spec_model(), V3dEvent::Other),
    {
        let ops = vec![
            RegOp::Write { reg: V3D_INTCTL, value: V3D_DRIVER_IRQS },
            RegOp::Write { reg: V3D_INTENA, value: V3D_DRIVER_IRQS },
        ];
        assert(ops@ =~= irq_reset_ops());
        ops
    }
}

/// Once brought up, the core never goes back to `Off`: starting a job
/// leaves it binning or rendering, and an interrupt leaves an initialized
/// core initialized. A finished render job always makes the core ready,
/// and a finished bin job moves a binning core with more work outstanding
/// to rendering.
pub proof fn lemma_core_stays_on(m: V3dModel, intctl: u32, thread: u32)
    ensures
        submit_state(thread) != V3dState::Off,
        m.0 != V3dState::Off ==> step(m, V3dEvent::Irq(intctl)).0 != V3dState::Off,
        intctl & V3D_INT_FRDONE != 0 ==> step(m, V3dEvent::Irq(intctl)).0 == V3dState::Ready,
        intctl & V3D_INT_FRDONE == 0 && intctl & V3D_INT_FLDONE != 0 && m.0 == V3dState::Binning
            && irq_finished(m.1, m.2, intctl) < m.1 ==> step(m, V3dEvent::Irq(intctl)).0
            == V3dState::Rendering,
{
    assert(intctl & V3D_INT_FRDONE != 0 ==> intctl != 0) by (bit_vector);
    assert(intctl & V3D_INT_FLDONE != 0 ==> intctl != 0) by (bit_vector);
}

/// Sequence numbers only grow: over any sequence of events, the last
/// submitted job never goes back, each submission to a core that is on
/// takes the next number, nothing else changes it, and the last finished
/// job is never past the last submitted one.
pub proof fn lemma_seqno_monotone(m: V3dModel, es: Seq<V3dEvent>, i: int, j: int)
    requires
        m.2 <= m.1,
        0 <= i <= j <= es.len(),
    ensures
        run(m, es.take(i)).1 <= run(m, es.take(j)).1,
        run(m, es.take(j)).2 <= run(m, es.take(j)).1,
        j < es.len() ==> (run(m, es.take(j + 1)).1 == run(m, es.take(j)).1 + 1 <==> (es[j] is Submit
            && run(m, es.take(j)).0 != V3dState::Off && run(m, es.take(j)).1 < u64::MAX)),
    decreases j,
{
    if j > 0 {
        lemma_seqno_monotone(m, es, if i < j { i } else { j - 1 }, j - 1);
        assert(es.take(j).drop_last() =~= es.take(j - 1));
        let p = run(m, es.take(j - 1));
        step_keeps(p, es[j - 1]);
    } else {
        assert(es.take(0) =~= Seq::<V3dEvent>::empty());
    }
    if j < es.len() {
        assert(es.take(j + 1).drop_last() =~= es.take(j));
        step_keeps(run(m, es.take(j)), es[j]);
    }
}

/// One event: the last submitted job grows by one on a submission to a
/// core that is on, and is otherwise kept; the last finished job stays
/// behind it.
proof fn step_keeps(p: V3dModel, e: V3dEvent)
    requires
        p.2 <= p.1,
    ensures
        step(p, e).1 == p.1 || step(p, e).1 == p.1 + 1,
        step(p, e).1 == p.1 + 1 <==> (e is Submit && p.0 != V3dState::Off && p.1 < u64::MAX),
        step(p, e).2 <= step(p, e).1,
{
}


/// An interrupt reports at most one finished bin job (`FLDONE`, bit 1) and
/// one finished render job (`FRDONE`, bit 0) of the status: the last
/// finished job advances by exactly the number of those bits set, never
/// past the last submitted job, and the last submitted job is unchanged.
pub proof fn lemma_irq_counts_reported_jobs(m: V3dModel, intctl: u32)
    requires
        m.2 <= m.1,
    ensures
        ({
            let n = (if intctl & 1u32 != 0 {
                1int
            } else {
                0int
            }) + (if intctl & 2u32 != 0 {
                1int
            } else {
                0int
            });
            let after = step(m, V3dEvent::Irq(intctl));
            &&& after.1 == m.1
            &&& after.2 == (if m.2 + n <= m.1 {
                m.2 + n
            } else {
                m.1 as int
            })
        }),
{
    assert(intctl == 0 ==> intctl & 1u32 == 0 && intctl & 2u32 == 0) by (bit_vector);
    assert(V3D_INT_FRDONE == 1u32 && V3D_INT_FLDONE == 2u32) by (bit_vector);
}

} // verus!
