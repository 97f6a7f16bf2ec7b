//! The order of device work in a frame.
//!
//! A pipeline runs its kernels in a fixed order on an in-order queue, then
//! downloads the output buffer if its last kernel wrote it since the last
//! download. `Pipeline` decides what comes next; the caller does it on the
//! device and reports back: `executed` after a kernel ran, `downloaded` with
//! the data a download brought, `fail` when the device refused.
use vstd::prelude::*;
use crate::buffer::HostBuffer;

verus! {

/// The two pipelines a trace processor can run.
#[derive(Clone, Copy, PartialEq, Eq, Debug, Structural)]
pub enum PipelineKind {
    /// One kernel traces straight into the integer frame.
    Direct,
    /// Clear a float accumulation buffer, accumulate samples into it, convert
    /// it into the integer frame.
    ThreeStage,
}

/// The kernels of the two pipelines.
#[derive(Clone, Copy, PartialEq, Eq, Debug, Structural)]
pub enum KernelKind {
    /// Traces one sample per pixel into the integer frame.
    Trace,
    /// Resets the accumulation buffer.
    Clear,
    /// Adds the antialiasing samples into the accumulation buffer.
    Accumulate,
    /// Tone-maps the accumulation buffer into the integer frame.
    Convert,
}

/// What the caller is to do next.
#[derive(Clone, Copy, PartialEq, Eq, Debug, Structural)]
pub enum Action {
    /// Enqueue this kernel.
    Execute(KernelKind),
    /// Read the output buffer back from the device.
    Download,
    /// Nothing more: the output is in the mirror.
    Finish,
}

/// The entry point of each kernel in the compute source: `raytracing` for the
/// direct pipeline; `clear`, `raytracingAA` and `image_from_floatmap` for the
/// three-stage one.
pub open spec fn entry_name(k: KernelKind) -> Seq<char> {
    match k {
        KernelKind::Trace => "raytracing"@,
        KernelKind::Clear => "clear"@,
        KernelKind::Accumulate => "raytracingAA"@,
        KernelKind::Convert => "image_from_floatmap"@,
    }
}

/// The name under which the compute source exports a kernel.
pub fn entry_point(k: KernelKind) -> (r: &'static str)
    ensures
        r@ == entry_name(k),
{
    match k {
        KernelKind::Trace => "raytracing",
        KernelKind::Clear => "clear",
        KernelKind::Accumulate => "raytracingAA",
        KernelKind::Convert => "image_from_floatmap",
    }
}

/// The kernels of a pipeline, in the order a frame runs them.
pub open spec fn stages(kind: PipelineKind) -> Seq<KernelKind> {
    match kind {
        PipelineKind::Direct => seq![KernelKind::Trace],
        PipelineKind::ThreeStage => seq![
            KernelKind::Clear,
            KernelKind::Accumulate,
            KernelKind::Convert,
        ],
    }
}

/// What comes next when `next` kernels of the frame have run and `dirty`
/// says whether the output is newer on the device.
pub open spec fn action_at(kind: PipelineKind, next: int, dirty: bool) -> Action {
    if 0 <= next < stages(kind).len() {
        Action::Execute(stages(kind)[next])
    } else if dirty {
        Action::Download
    } else {
        Action::Finish
    }
}

/// The position and dirty flag once the action due has succeeded. The last
/// kernel writes the output, so running it leaves the output dirty.
pub open spec fn after_success(kind: PipelineKind, next: int, dirty: bool) -> (int, bool) {
    if 0 <= next < stages(kind).len() {
        (next + 1, dirty || next + 1 == stages(kind).len())
    } else {
        (next, false)
    }
}

/// The actions a pipeline asks for, from the given position on, when every
/// one of them succeeds, up to (not including) `Finish`.
pub open spec fn frame_actions(kind: PipelineKind, next: int, dirty: bool) -> Seq<Action>
    decreases 2 * (stages(kind).len() - next) + (if dirty { 1int } else { 0int }),
{
    if next < 0 || next > stages(kind).len() {
        Seq::empty()
    } else if action_at(kind, next, dirty) == Action::Finish {
        Seq::empty()
    } else {
        let (n, d) = after_success(kind, next, dirty);
        seq![action_at(kind, next, dirty)] + frame_actions(kind, n, d)
    }
}

/// Every frame of the three-stage pipeline runs clear, accumulate and convert
/// once each, in that order, then downloads the output once. A frame starts
/// at position 0 whatever the dirty flag left by the previous frame, so this
/// holds of every frame, the clear stage included when nothing changed.
pub proof fn lemma_three_stage_frame(dirty: bool)
    ensures
        frame_actions(PipelineKind::ThreeStage, 0, dirty) == seq![
            Action::Execute(KernelKind::Clear),
            Action::Execute(KernelKind::Accumulate),
            Action::Execute(KernelKind::Convert),
            Action::Download,
        ],
        after_success(PipelineKind::ThreeStage, 3, true) == (3int, false),
{
    let k = PipelineKind::ThreeStage;
    assert(frame_actions(k, 3, false) == Seq::<Action>::empty());
    assert(frame_actions(k, 3, true) == seq![Action::Download] + frame_actions(k, 3, false));
    assert(frame_actions(k, 2, dirty) == seq![Action::Execute(KernelKind::Convert)]
        + frame_actions(k, 3, true));
    assert(frame_actions(k, 1, dirty) == seq![Action::Execute(KernelKind::Accumulate)]
        + frame_actions(k, 2, dirty));
    assert(frame_actions(k, 0, dirty) == seq![Action::Execute(KernelKind::Clear)]
        + frame_actions(k, 1, dirty));
    assert(frame_actions(k, 0, dirty) =~= seq![
        Action::Execute(KernelKind::Clear),
        Action::Execute(KernelKind::Accumulate),
        Action::Execute(KernelKind::Convert),
        Action::Download,
    ]);
}

/// Every frame of the direct pipeline runs the trace kernel once, then
/// downloads the output once.
pub proof fn lemma_direct_frame(dirty: bool)
    ensures
        frame_actions(PipelineKind::Direct, 0, dirty) == seq![
            Action::Execute(KernelKind::Trace),
            Action::Download,
        ],
        after_success(PipelineKind::Direct, 1, true) == (1int, false),
{
    let k = PipelineKind::Direct;
    assert(frame_actions(k, 1, false) == Seq::<Action>::empty());
    assert(frame_actions(k, 1, true) == seq![Action::Download] + frame_actions(k, 1, false));
    assert(frame_actions(k, 0, dirty) == seq![Action::Execute(KernelKind::Trace)]
        + frame_actions(k, 1, true));
    assert(frame_actions(k, 0, dirty) =~= seq![
        Action::Execute(KernelKind::Trace),
        Action::Download,
    ]);
}

/// Asking for the output with no frame under way downloads it only when a
/// kernel wrote it since the last download; the download leaves it clean, so
/// asking again with no kernel run between downloads nothing.
pub proof fn lemma_one_download_per_dirty_period(kind: PipelineKind)
    ensures
        frame_actions(kind, stages(kind).len() as int, true) == seq![Action::Download],
        after_success(kind, stages(kind).len() as int, true) == (stages(kind).len() as int, false),
        frame_actions(kind, stages(kind).len() as int, false) == Seq::<Action>::empty(),
{
    let n = stages(kind).len() as int;
    assert(frame_actions(kind, n, false) == Seq::<Action>::empty());
    assert(frame_actions(kind, n, true) == seq![Action::Download] + frame_actions(kind, n, false));
    assert(frame_actions(kind, n, true) =~= seq![Action::Download]);
}

/// Bookkeeping of one pipeline: its kind, how far the current frame has got,
/// and the host mirror of its output with the output's dirty flag.
pub struct Pipeline {
    kind: PipelineKind,
    next: usize,
    output: HostBuffer<i32>,
}

impl Pipeline {
    #[verifier::type_invariant]
    spec fn inv(&self) -> bool {
        self.next <= stages(self.kind).len()
    }

    /// Which pipeline this is.
    pub closed spec fn pipeline_kind(&self) -> PipelineKind {
        self.kind
    }

    /// How many kernels of the current frame have run; the number of stages
    /// once no frame is under way.
    pub closed spec fn position(&self) -> int {
        self.next as int
    }

    /// Whether the device holds output newer than the mirror.
    pub closed spec fn is_dirty(&self) -> bool {
        self.output.is_dirty()
    }

    /// The host mirror of the output frame.
    pub closed spec fn output(&self) -> Seq<i32> {
        self.output.contents()
    }

    /// The action that is due.
    pub open spec fn due(&self) -> Action {
        action_at(self.pipeline_kind(), self.position(), self.is_dirty())
    }

    /// A pipeline of the given kind whose output frame has `pixels` pixels
    /// (at least one), all 0; no frame is under way and nothing is due.
    pub fn new(kind: PipelineKind, pixels: usize) -> (r: Self)
        ensures
            r.pipeline_kind() == kind,
            r.position() == stages(kind).len(),
            !r.is_dirty(),
            r.output().len() == if pixels == 0 { 1 } else { pixels as int },
            forall|i: int| 0 <= i < r.output().len() ==> r.output()[i] == 0,
    {
        let output = HostBuffer::new(pixels, 0i32);
        let next: usize = match kind {
            PipelineKind::Direct => 1,
            PipelineKind::ThreeStage => 3,
        };
        Pipeline { kind, next, output }
    }

    /// Which pipeline this is.
    pub fn kind(&self) -> (r: PipelineKind)
        ensures
            r == self.pipeline_kind(),
    {
        self.kind
    }

    /// Starts a frame: every kernel of the pipeline is due again, from the
    /// first, whatever the previous frame did.
    pub fn begin_frame(&mut self)
        ensures
            final(self).pipeline_kind() == old(self).pipeline_kind(),
            final(self).position() == 0,
            final(self).is_dirty() == old(self).is_dirty(),
            final(self).output() == old(self).output(),
    {
        self.next = 0;
    }

    /// The action that is due.
    pub fn next_action(&self) -> (r: Action)
        ensures
            r == self.due(),
    {
        proof {
            use_type_invariant(self);
        }
        let n: usize = match self.kind {
            PipelineKind::Direct => 1,
            PipelineKind::ThreeStage => 3,
        };
        if self.next < n {
            let k = match self.kind {
                PipelineKind::Direct => KernelKind::Trace,
                PipelineKind::ThreeStage => if self.next == 0 {
                    KernelKind::Clear
                } else if self.next == 1 {
                    KernelKind::Accumulate
                } else {
                    KernelKind::Convert
                },
            };
            Action::Execute(k)
        } else if self.output.needs_download() {
            Action::Download
        } else {
            Action::Finish
        }
    }

    /// Records that the kernel that was due ran.
    pub fn executed(&mut self)
        requires
            old(self).due() is Execute,
        ensures
            final(self).pipeline_kind() == old(self).pipeline_kind(),
            (final(self).position(), final(self).is_dirty()) == after_success(
                old(self).pipeline_kind(),
                old(self).position(),
                old(self).is_dirty(),
            ),
            final(self).output() == old(self).output(),
    {
        proof {
            use_type_invariant(&*self);
        }
        let n: usize = match self.kind {
            PipelineKind::Direct => 1,
            PipelineKind::ThreeStage => 3,
        };
        self.next = self.next + 1;
        if self.next == n {
            self.output.mark_dirty();
        }
    }

    /// Takes the frame that the due download brought: the mirror holds it and
    /// is clean.
    pub fn downloaded(&mut self, data: Vec<i32>)
        requires
            old(self).due() == Action::Download,
            data@.len() == old(self).output().len(),
        ensures
            final(self).pipeline_kind() == old(self).pipeline_kind(),
            (final(self).position(), final(self).is_dirty()) == after_success(
                old(self).pipeline_kind(),
                old(self).position(),
                old(self).is_dirty(),
            ),
            final(self).output() == data@,
    {
        proof {
            use_type_invariant(&*self);
        }
        self.output.downloaded(data);
    }

    /// Abandons the rest of the frame after the device refused the due
    /// action; what the device holds is unknown, so the dirty flag stays.
    pub fn fail(&mut self)
        ensures
            final(self).pipeline_kind() == old(self).pipeline_kind(),
            final(self).position() == stages(old(self).pipeline_kind()).len(),
            final(self).is_dirty() == old(self).is_dirty(),
            final(self).output() == old(self).output(),
    {
        self.next = match self.kind {
            PipelineKind::Direct => 1,
            PipelineKind::ThreeStage => 3,
        };
    }

    /// Number of pixels in the output frame.
    pub fn output_len(&self) -> (r: usize)
        ensures
            r == self.output().len(),
    {
        self.output.len()
    }

    /// The host mirror of the output frame.
    pub fn result(&self) -> (r: &[i32])
        ensures
            r@ == self.output(),
    {
        self.output.get_slice()
    }
}

} // verus!
