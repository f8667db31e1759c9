use vstd::prelude::*;
use crate::engine::{CallView, EdfError, EngineCall, Field};
use crate::header::{
    check_header, filetype_of, header_fault, valid_header, EDFChannel, EDFHeader, EDFPatientInfo,
};
use crate::pipeline::{
    batch_count_warnings, batch_plan, batch_sample_count_warnings, batch_view, calls_view,
    frame_count_warnings, frame_plan, frame_view, plan_frame, plan_frames, repair_frames, repaired,
    repairs, sample_count_warnings, Warning,
};
use crate::session::{first_action, Action, ActionView, Edf, SessionState};

verus! {

/// The header calls for the patient data, in the order they are made.
pub open spec fn patient_plan(p: EDFPatientInfo) -> Seq<CallView> {
    seq![
        CallView::SetText { field: Field::Equipment, value: p.equipment@ },
        CallView::SetText { field: Field::PatientName, value: p.patient_name@ },
        CallView::SetText { field: Field::PatientCode, value: p.patient_code@ },
        CallView::SetNumber { field: Field::Sex, value: p.sex },
        CallView::SetText { field: Field::AdminCode, value: p.admin_code@ },
        CallView::SetText { field: Field::Technician, value: p.technician@ },
    ]
}

/// The header calls for channel `ch` at index `i`: label, transducer, digital
/// maximum and minimum, physical maximum and minimum, unit, sample frequency.
pub open spec fn channel_setup(ch: EDFChannel, i: i32) -> Seq<CallView> {
    seq![
        CallView::SetText { field: Field::Label(i), value: ch.label@ },
        CallView::SetText { field: Field::Transducer(i), value: ch.transducer@ },
        CallView::SetNumber { field: Field::DigitalMaximum(i), value: ch.digital_max },
        CallView::SetNumber { field: Field::DigitalMinimum(i), value: ch.digital_min },
        CallView::SetPhysical { field: Field::PhysicalMaximum(i), bits: ch.physical_max_bits },
        CallView::SetPhysical { field: Field::PhysicalMinimum(i), bits: ch.physical_min_bits },
        CallView::SetText { field: Field::PhysicalDimension(i), value: ch.physical_dimension@ },
        CallView::SetNumber { field: Field::SampleFrequency(i), value: ch.sample_frequency },
    ]
}

/// The header calls for the first `n` channels, in index order.
pub open spec fn channels_setup(chs: Seq<EDFChannel>, n: nat) -> Seq<CallView>
    decreases n,
{
    if n == 0 {
        seq![]
    } else {
        channels_setup(chs, (n - 1) as nat) + channel_setup(chs[n - 1], (n - 1) as i32)
    }
}

/// All header calls: the patient data, then every channel in index order.
pub open spec fn header_plan(h: EDFHeader) -> Seq<CallView> {
    patient_plan(h.patient_info) + channels_setup(h.channels@, h.channels@.len())
}

/// The channels' sample frequencies, in channel order.
pub open spec fn frequencies(chs: Seq<EDFChannel>) -> Seq<i32> {
    chs.map_values(|c: EDFChannel| c.sample_frequency)
}

fn push_call(calls: &mut Vec<EngineCall>, c: EngineCall)
    ensures
        calls_view(final(calls)@) == calls_view(old(calls)@).push(c@),
{
    let ghost cv = c@;
    calls.push(c);
    assert(calls_view(calls@) =~= calls_view(old(calls)@).push(cv));
}

/// Appends the header calls for `header`: the patient data, then each channel.
fn setup_header(header: &EDFHeader, calls: &mut Vec<EngineCall>)
    requires
        header.channels@.len() <= i32::MAX,
    ensures
        calls_view(final(calls)@) == calls_view(old(calls)@) + header_plan(*header),
{
    let p = &header.patient_info;
    push_call(calls, EngineCall::SetText { field: Field::Equipment, value: p.equipment.clone() });
    push_call(calls, EngineCall::SetText { field: Field::PatientName, value: p.patient_name.clone() });
    push_call(calls, EngineCall::SetText { field: Field::PatientCode, value: p.patient_code.clone() });
    push_call(calls, EngineCall::SetNumber { field: Field::Sex, value: p.sex });
    push_call(calls, EngineCall::SetText { field: Field::AdminCode, value: p.admin_code.clone() });
    push_call(calls, EngineCall::SetText { field: Field::Technician, value: p.technician.clone() });
    let ghost base = calls_view(old(calls)@) + patient_plan(*p);
    assert(calls_view(calls@) =~= base + channels_setup(header.channels@, 0));
    let mut i: usize = 0;
    while i < header.channels.len()
        invariant
            i <= header.channels@.len() <= i32::MAX,
            calls_view(calls@) == base + channels_setup(header.channels@, i as nat),
        decreases header.channels.len() - i,
    {
        let ch = &header.channels[i];
        let k = i as i32;
        let ghost before = calls_view(calls@);
        push_call(calls, EngineCall::SetText { field: Field::Label(k), value: ch.label.clone() });
        push_call(calls, EngineCall::SetText { field: Field::Transducer(k), value: ch.transducer.clone() });
        push_call(calls, EngineCall::SetNumber { field: Field::DigitalMaximum(k), value: ch.digital_max });
        push_call(calls, EngineCall::SetNumber { field: Field::DigitalMinimum(k), value: ch.digital_min });
        push_call(
            calls,
            EngineCall::SetPhysical { field: Field::PhysicalMaximum(k), bits: ch.physical_max_bits },
        );
        push_call(
            calls,
            EngineCall::SetPhysical { field: Field::PhysicalMinimum(k), bits: ch.physical_min_bits },
        );
        push_call(
            calls,
            EngineCall::SetText { field: Field::PhysicalDimension(k), value: ch.physical_dimension.clone() },
        );
        push_call(calls, EngineCall::SetNumber { field: Field::SampleFrequency(k), value: ch.sample_frequency });
        assert(calls_view(calls@) =~= before + channel_setup(*ch, k));
        i += 1;
    }
}

/// The channels' sample frequencies, in channel order.
fn frequencies_of(header: &EDFHeader) -> (r: Vec<i32>)
    ensures
        r@ == frequencies(header.channels@),
{
    let mut r: Vec<i32> = Vec::new();
    let mut i: usize = 0;
    while i < header.channels.len()
        invariant
            i <= header.channels.len(),
            r@ =~= frequencies(header.channels@).subrange(0, i as int),
        decreases header.channels.len() - i,
    {
        r.push(header.channels[i].sample_frequency);
        i += 1;
    }
    assert(r@ =~= frequencies(header.channels@));
    r
}

/// Writes one EDF/BDF file: opens it and sets up its header, writes frames of
/// samples and annotations, and finishes it. Each operation returns an `Action`;
/// the caller makes the engine call it names and passes the status to `resume`
/// until the operation is done.
pub struct EDFWriter {
    file_path: String,
    header: EDFHeader,
    edf: Edf,
}

impl EDFWriter {
    /// The output path.
    pub closed spec fn spec_path(&self) -> Seq<char> {
        self.file_path@
    }

    /// The header the file is written with.
    pub closed spec fn spec_header(&self) -> EDFHeader {
        self.header
    }

    /// The engine session.
    pub closed spec fn session(&self) -> Edf {
        self.edf
    }

    /// Whether `other` is this writer with only its session changed.
    pub open spec fn same_file(&self, other: &EDFWriter) -> bool {
        other.spec_path() == self.spec_path() && other.spec_header() == self.spec_header()
    }

    /// A writer for `file_path` with `header`, not yet open.
    pub fn new(file_path: String, header: EDFHeader) -> (r: EDFWriter)
        ensures
            r.spec_path() == file_path@,
            r.spec_header() == header,
            r.session().state() == SessionState::Unopened,
            r.session().pending() == Seq::<CallView>::empty(),
    {
        let edf = Edf::new(file_path.clone(), 0);
        EDFWriter { file_path, header, edf }
    }

    /// The output path.
    pub fn file_path(&self) -> (r: &String)
        ensures
            r@ == self.spec_path(),
    {
        &self.file_path
    }

    /// The header the file is written with.
    pub fn header(&self) -> (r: &EDFHeader)
        ensures
            *r == self.spec_header(),
    {
        &self.header
    }

    /// The lifecycle state of the engine handle.
    pub fn session_state(&self) -> (r: SessionState)
        ensures
            r == self.session().state(),
    {
        self.edf.session_state()
    }

    /// Whether an engine call is outstanding, to be answered through `resume`.
    pub fn awaiting(&self) -> (r: bool)
        ensures
            r == (self.session().pending().len() > 0),
    {
        self.edf.awaiting()
    }

    /// Hands the engine's status for the outstanding call back and returns what
    /// to do next (see `Edf::resume`).
    pub fn resume(&mut self, status: i32) -> (r: Action)
        requires
            old(self).session().pending().len() > 0,
        ensures
            old(self).same_file(final(self)),
            final(self).session().state() == crate::session::state_after(
                old(self).session().state(),
                old(self).session().pending()[0],
                status,
            ),
            status < 0 ==> final(self).session().pending() == Seq::<CallView>::empty() && r@
                == ActionView::Done(Err(crate::engine::failure_of(old(self).session().pending()[0]))),
            status >= 0 ==> final(self).session().pending() == old(self).session().pending().drop_first()
                && r@ == first_action(final(self).session().state(), final(self).session().pending()),
    {
        self.edf.resume(status)
    }

    /// Opens the file and sets up its header: the `Open` call for the path with
    /// one signal per channel, then the header calls. Fails with `OpenError`,
    /// making no engine call, when the writer was opened before or has more
    /// channels than an `i32` counts; fails with the first invalid channel's
    /// `ConfigError` (see `channel_fault`), making no engine call, when a channel
    /// is not valid.
    pub fn open(&mut self) -> (r: Action)
        ensures
            old(self).same_file(final(self)),
            final(self).session().state() == old(self).session().state(),
            old(self).session().state() != SessionState::Unopened || old(self).spec_header().channels@.len()
                > i32::MAX ==> final(self).session().pending() == Seq::<CallView>::empty() && r@
                == ActionView::Done(Err(EdfError::OpenError)),
            old(self).session().state() == SessionState::Unopened && old(self).spec_header().channels@.len()
                <= i32::MAX && !valid_header(old(self).spec_header()) ==> {
                &&& header_fault(old(self).spec_header()) is Some
                &&& final(self).session().pending() == Seq::<CallView>::empty()
                &&& r@ == ActionView::Done(Err(header_fault(old(self).spec_header())->Some_0))
            },
            old(self).session().state() == SessionState::Unopened && old(self).spec_header().channels@.len()
                <= i32::MAX && valid_header(old(self).spec_header()) ==> final(self).session().pending()
                == seq![
                CallView::Open {
                    path: old(self).spec_path(),
                    filetype: filetype_of(old(self).spec_path()),
                    signals: old(self).spec_header().channels@.len() as i32,
                },
            ] + header_plan(old(self).spec_header()) && r@ == first_action(
                SessionState::Unopened,
                final(self).session().pending(),
            ),
    {
        if self.edf.session_state() != SessionState::Unopened || self.header.channels.len()
            > i32::MAX as usize {
            return self.edf.refuse(EdfError::OpenError);
        }
        if let Some(e) = check_header(&self.header) {
            return self.edf.refuse(e);
        }
        self.edf = Edf::new(self.file_path.clone(), self.header.channels.len() as i32);
        let mut plan: Vec<EngineCall> = Vec::new();
        assert(calls_view(plan@) =~= seq![]);
        push_call(&mut plan, self.edf.open_call());
        setup_header(&self.header, &mut plan);
        self.edf.run(plan)
    }

    /// Writes one frame, channel by channel, each channel in periods of its
    /// sample frequency, and returns beside the action a warning for each channel
    /// whose sample count differs from its frequency. A frame with another
    /// channel count, or a channel that is not a whole number of periods, fails
    /// before any engine call.
    pub fn write_sample_stream(&mut self, channel_samples: &Vec<Vec<u64>>) -> (r: (Action, Vec<Warning>))
        ensures
            old(self).same_file(final(self)),
            final(self).session().state() == old(self).session().state(),
            !(old(self).session().state() is Open) ==> {
                &&& final(self).session().pending() == Seq::<CallView>::empty()
                &&& r.0@ == ActionView::Done(Err(EdfError::NotOpenError))
                &&& r.1@ == Seq::<Warning>::empty()
            },
            old(self).session().state() is Open ==> {
                &&& r.1@ == frame_count_warnings(
                    frequencies(old(self).spec_header().channels@),
                    frame_view(*channel_samples),
                    0,
                )
                &&& match frame_plan(
                    frequencies(old(self).spec_header().channels@),
                    frame_view(*channel_samples),
                    0,
                ) {
                    Ok(p) => final(self).session().pending() == p && r.0@ == first_action(
                        old(self).session().state(),
                        p,
                    ),
                    Err(e) => final(self).session().pending() == Seq::<CallView>::empty() && r.0@
                        == ActionView::Done(Err(e)),
                }
            },
    {
        if !matches!(self.edf.session_state(), SessionState::Open(_)) {
            return (self.edf.refuse(EdfError::NotOpenError), Vec::new());
        }
        let freqs = frequencies_of(&self.header);
        let mut warnings: Vec<Warning> = Vec::new();
        sample_count_warnings(&freqs, channel_samples, 0, &mut warnings);
        assert(warnings@ =~= frame_count_warnings(freqs@, frame_view(*channel_samples), 0));
        let mut plan: Vec<EngineCall> = Vec::new();
        assert(calls_view(plan@) =~= seq![]);
        match plan_frame(&freqs, channel_samples, 0, &mut plan) {
            Err(e) => (self.edf.refuse(e), warnings),
            Ok(()) => {
                assert(calls_view(plan@) =~= frame_plan(freqs@, frame_view(*channel_samples), 0)->Ok_0);
                (self.edf.run(plan), warnings)
            },
        }
    }

    /// Writes a batch of frames. The frames are first repaired in place (see
    /// `repair_frames`); then every frame is written in order as
    /// `write_sample_stream` writes one. Beside the action come the warnings: the
    /// substitutions made, then the sample-count mismatches of the repaired
    /// frames. A shape error anywhere fails before any engine call. An empty batch
    /// succeeds at once.
    pub fn write_multi_frames(&mut self, frames_data: &mut Vec<Vec<Vec<u64>>>) -> (r: (
        Action,
        Vec<Warning>,
    ))
        ensures
            old(self).same_file(final(self)),
            final(self).session().state() == old(self).session().state(),
            old(frames_data)@.len() == 0 ==> final(frames_data)@ == old(frames_data)@
                && final(self).session().pending() == Seq::<CallView>::empty() && r.0@
                == ActionView::Done(Ok(())) && r.1@ == Seq::<Warning>::empty(),
            old(frames_data)@.len() > 0 && !(old(self).session().state() is Open) ==> {
                &&& final(frames_data)@ == old(frames_data)@
                &&& final(self).session().pending() == Seq::<CallView>::empty()
                &&& r.0@ == ActionView::Done(Err(EdfError::NotOpenError))
                &&& r.1@ == Seq::<Warning>::empty()
            },
            old(frames_data)@.len() > 0 && old(self).session().state() is Open ==> {
                &&& batch_view(*final(frames_data)) == repaired(batch_view(*old(frames_data)))
                &&& r.1@ == repairs(batch_view(*old(frames_data))) + batch_count_warnings(
                    frequencies(old(self).spec_header().channels@),
                    repaired(batch_view(*old(frames_data))),
                    old(frames_data)@.len(),
                )
                &&& match batch_plan(
                    frequencies(old(self).spec_header().channels@),
                    repaired(batch_view(*old(frames_data))),
                ) {
                    Ok(p) => final(self).session().pending() == p && r.0@ == first_action(
                        old(self).session().state(),
                        p,
                    ),
                    Err(e) => final(self).session().pending() == Seq::<CallView>::empty() && r.0@
                        == ActionView::Done(Err(e)),
                }
            },
    {
        if frames_data.len() == 0 {
            return (self.edf.run(Vec::new()), Vec::new());
        }
        if !matches!(self.edf.session_state(), SessionState::Open(_)) {
            return (self.edf.refuse(EdfError::NotOpenError), Vec::new());
        }
        let mut log = repair_frames(frames_data);
        let freqs = frequencies_of(&self.header);
        let mut counts = batch_sample_count_warnings(&freqs, frames_data);
        log.append(&mut counts);
        match plan_frames(&freqs, frames_data) {
            Err(e) => (self.edf.refuse(e), log),
            Ok(plan) => (self.edf.run(plan), log),
        }
    }

    /// Writes an annotation: onset and duration in microseconds, Latin-1 text.
    pub fn write_annotation(&mut self, onset: i64, duration: i64, description: String) -> (r: Action)
        ensures
            old(self).same_file(final(self)),
            final(self).session().state() == old(self).session().state(),
            crate::session::single_call(
                old(self).session().state(),
                CallView::WriteAnnotation { onset, duration, description: description@ },
                final(self).session().pending(),
                r@,
            ),
    {
        self.edf.write_annotation(onset, duration, description)
    }

    /// Finalizes the file: one `Close` call on an open file; success with no
    /// engine call on an unopened or already finished one.
    pub fn finish(&mut self) -> (r: Action)
        ensures
            old(self).same_file(final(self)),
            final(self).session().state() == old(self).session().state(),
            old(self).session().state() is Open ==> final(self).session().pending() == seq![
                CallView::Close,
            ] && r@ == (ActionView::Call {
                handle: crate::session::handle_of(old(self).session().state()),
                call: CallView::Close,
            }),
            !(old(self).session().state() is Open) ==> final(self).session().pending() == Seq::<
                CallView,
            >::empty() && r@ == ActionView::Done(Ok(())),
    {
        self.edf.finish()
    }
}

} // verus!
