use vstd::prelude::*;
use crate::engine::{failure_of, CallView, EdfError, EngineCall, Field};
use crate::header::{
    duration_ticks, filetype_of, position_code, record_duration_ticks, valid_record_duration,
    AnnotationPosition, Filetype,
};
use crate::pipeline::{calls_view, channel_writes, push_channel_writes, whole_periods};

verus! {

/// Lifecycle of a session's engine handle.
#[derive(Debug, Clone, Copy, PartialEq, Eq, Structural)]
pub enum SessionState {
    Unopened,
    Open(i32),
    Closed,
}

/// What the caller does next: make one engine call on the given handle and pass
/// its status to `resume`, or take the finished operation's result.
#[derive(Debug)]
pub enum Action {
    Call { handle: i32, call: EngineCall },
    Done(Result<(), EdfError>),
}

/// The mathematical value of an `Action`.
pub ghost enum ActionView {
    Call { handle: i32, call: CallView },
    Done(Result<(), EdfError>),
}

impl View for Action {
    type V = ActionView;

    open spec fn view(&self) -> ActionView {
        match self {
            Action::Call { handle, call } => ActionView::Call { handle: *handle, call: call@ },
            Action::Done(r) => ActionView::Done(*r),
        }
    }
}

/// The handle engine calls go to in state `st`; -1 while none is open.
pub open spec fn handle_of(st: SessionState) -> i32 {
    match st {
        SessionState::Open(h) => h,
        _ => -1i32,
    }
}

/// The first action of `plan` in state `st`: its first call, or success when
/// there is nothing to do.
pub open spec fn first_action(st: SessionState, plan: Seq<CallView>) -> ActionView {
    if plan.len() == 0 {
        ActionView::Done(Ok(()))
    } else {
        ActionView::Call { handle: handle_of(st), call: plan[0] }
    }
}

/// The state after the engine answered call `c` with `status`: a successful open
/// holds the returned handle, a close releases the handle whatever its status.
pub open spec fn state_after(st: SessionState, c: CallView, status: i32) -> SessionState {
    match c {
        CallView::Open { .. } => if status >= 0 {
            SessionState::Open(status)
        } else {
            st
        },
        CallView::Close => SessionState::Closed,
        _ => st,
    }
}

/// How a one-call operation starts in state `st`: on an open handle, `c` is the
/// only call to make; otherwise it fails at once with `NotOpenError`.
pub open spec fn single_call(st: SessionState, c: CallView, pending: Seq<CallView>, r: ActionView) -> bool {
    match st {
        SessionState::Open(h) => pending == seq![c] && r == (ActionView::Call { handle: h, call: c }),
        _ => pending == Seq::<CallView>::empty() && r == ActionView::Done(Err(EdfError::NotOpenError)),
    }
}

/// One output file's engine session: the handle's lifecycle and the engine calls
/// of the operation in progress.
pub struct Edf {
    path: String,
    number_of_signals: i32,
    state: SessionState,
    plan: Vec<EngineCall>,
    next: usize,
}

impl Edf {
    /// The lifecycle state.
    pub closed spec fn state(&self) -> SessionState {
        self.state
    }

    /// The calls of the operation in progress still to be made, the next first.
    pub closed spec fn pending(&self) -> Seq<CallView> {
        if self.next <= self.plan@.len() {
            calls_view(self.plan@).subrange(self.next as int, self.plan@.len() as int)
        } else {
            Seq::empty()
        }
    }

    /// The output file's path.
    pub closed spec fn file_path(&self) -> Seq<char> {
        self.path@
    }

    /// The number of data signals the file is opened with.
    pub closed spec fn signals(&self) -> i32 {
        self.number_of_signals
    }

    /// Whether `other` is this session with only its state and pending calls changed.
    pub open spec fn same_file(&self, other: &Edf) -> bool {
        other.file_path() == self.file_path() && other.signals() == self.signals()
    }

    /// A session for `path` with `number_of_signals` data signals, not yet open.
    pub fn new(path: String, number_of_signals: i32) -> (r: Edf)
        ensures
            r.file_path() == path@,
            r.signals() == number_of_signals,
            r.state() == SessionState::Unopened,
            r.pending() == Seq::<CallView>::empty(),
    {
        let r = Edf { path, number_of_signals, state: SessionState::Unopened, plan: Vec::new(), next: 0 };
        assert(r.pending() =~= Seq::<CallView>::empty());
        r
    }

    /// The lifecycle state.
    pub fn session_state(&self) -> (r: SessionState)
        ensures
            r == self.state(),
    {
        self.state
    }

    /// Whether an engine call is outstanding, to be answered through `resume`.
    pub fn awaiting(&self) -> (r: bool)
        ensures
            r == (self.pending().len() > 0),
    {
        self.next < self.plan.len()
    }

    /// Starts an operation made of `plan`, keeping the state.
    pub(crate) fn run(&mut self, plan: Vec<EngineCall>) -> (r: Action)
        ensures
            old(self).same_file(final(self)),
            final(self).state() == old(self).state(),
            final(self).pending() == calls_view(plan@),
            r@ == first_action(old(self).state(), calls_view(plan@)),
    {
        self.plan = plan;
        self.next = 0;
        assert(self.pending() =~= calls_view(self.plan@));
        if self.plan.len() == 0 {
            Action::Done(Ok(()))
        } else {
            let handle = match self.state {
                SessionState::Open(h) => h,
                _ => -1,
            };
            Action::Call { handle, call: self.plan[0].clone_call() }
        }
    }

    /// Ends the operation in progress with `e`, making no engine call.
    pub(crate) fn refuse(&mut self, e: EdfError) -> (r: Action)
        ensures
            old(self).same_file(final(self)),
            final(self).state() == old(self).state(),
            final(self).pending() == Seq::<CallView>::empty(),
            r@ == ActionView::Done(Err(e)),
    {
        self.plan = Vec::new();
        self.next = 0;
        assert(self.pending() =~= Seq::<CallView>::empty());
        Action::Done(Err(e))
    }

    fn single(&mut self, call: EngineCall) -> (r: Action)
        ensures
            old(self).same_file(final(self)),
            final(self).state() == old(self).state(),
            single_call(old(self).state(), call@, final(self).pending(), r@),
    {
        let ghost c = call@;
        match self.state {
            SessionState::Open(_) => {
                let mut plan: Vec<EngineCall> = Vec::new();
                plan.push(call);
                assert(calls_view(plan@) =~= seq![c]);
                self.run(plan)
            },
            _ => self.refuse(EdfError::NotOpenError),
        }
    }

    /// Hands the engine's status for the outstanding call back to the session and
    /// returns what to do next. A negative status ends the operation with that
    /// call's error; otherwise the next call follows, or success after the last.
    pub fn resume(&mut self, status: i32) -> (r: Action)
        requires
            old(self).pending().len() > 0,
        ensures
            old(self).same_file(final(self)),
            final(self).state() == state_after(old(self).state(), old(self).pending()[0], status),
            status < 0 ==> final(self).pending() == Seq::<CallView>::empty() && r@ == ActionView::Done(
                Err(failure_of(old(self).pending()[0])),
            ),
            status >= 0 ==> final(self).pending() == old(self).pending().drop_first() && r@
                == first_action(final(self).state(), final(self).pending()),
    {
        let ghost c = old(self).pending()[0];
        let ghost rest = old(self).pending().drop_first();
        let i = self.next;
        assert(i < self.plan.len());
        assert(self.plan@[i as int]@ == c);
        match &self.plan[i] {
            EngineCall::Open { .. } => {
                if status >= 0 {
                    self.state = SessionState::Open(status);
                }
            },
            EngineCall::Close => {
                self.state = SessionState::Closed;
            },
            _ => {},
        }
        if status < 0 {
            let e = self.plan[i].failure();
            return self.refuse(e);
        }
        self.next = i + 1;
        assert(self.pending() =~= rest);
        if self.next < self.plan.len() {
            let handle = match self.state {
                SessionState::Open(h) => h,
                _ => -1,
            };
            Action::Call { handle, call: self.plan[self.next].clone_call() }
        } else {
            Action::Done(Ok(()))
        }
    }

    /// Opens the file write-only: a single `Open` call, the container chosen by
    /// the path's extension. Only an unopened session can be opened.
    pub fn open_file_writeonly(&mut self) -> (r: Action)
        ensures
            old(self).same_file(final(self)),
            final(self).state() == old(self).state(),
            old(self).state() == SessionState::Unopened ==> final(self).pending() == seq![
                CallView::Open {
                    path: old(self).file_path(),
                    filetype: filetype_of(old(self).file_path()),
                    signals: old(self).signals(),
                },
            ] && r@ == first_action(old(self).state(), final(self).pending()),
            old(self).state() != SessionState::Unopened ==> final(self).pending() == Seq::<
                CallView,
            >::empty() && r@ == ActionView::Done(Err(EdfError::OpenError)),
    {
        if self.state != SessionState::Unopened {
            return self.refuse(EdfError::OpenError);
        }
        let call = self.open_call();
        let ghost c = call@;
        let mut plan: Vec<EngineCall> = Vec::new();
        plan.push(call);
        assert(calls_view(plan@) =~= seq![c]);
        self.run(plan)
    }

    /// The engine call that opens this session's file.
    pub(crate) fn open_call(&self) -> (r: EngineCall)
        ensures
            r@ == (CallView::Open {
                path: self.file_path(),
                filetype: filetype_of(self.file_path()),
                signals: self.signals(),
            }),
    {
        EngineCall::Open {
            path: self.path.clone(),
            filetype: Filetype::from_path(self.path.as_str()),
            signals: self.number_of_signals,
        }
    }

    /// Finalizes the file and releases the handle: one `Close` call on an open
    /// session; on an unopened or closed one, success with no engine call.
    pub fn finish(&mut self) -> (r: Action)
        ensures
            old(self).same_file(final(self)),
            final(self).state() == old(self).state(),
            old(self).state() is Open ==> final(self).pending() == seq![CallView::Close] && r@ == (
            ActionView::Call { handle: handle_of(old(self).state()), call: CallView::Close }),
            !(old(self).state() is Open) ==> final(self).pending() == Seq::<CallView>::empty() && r@
                == ActionView::Done(Ok(())),
    {
        match self.state {
            SessionState::Open(_) => self.single(EngineCall::Close),
            _ => {
                let r = self.run(Vec::new());
                assert(self.pending() =~= Seq::<CallView>::empty());
                r
            },
        }
    }
}

impl Edf {
    /// Sets the patient's name.
    pub fn set_patientname(&mut self, patientname: String) -> (r: Action)
        ensures
            old(self).same_file(final(self)),
            final(self).state() == old(self).state(),
            single_call(
                old(self).state(),
                CallView::SetText { field: Field::PatientName, value: patientname@ },
                final(self).pending(),
                r@,
            ),
    {
        self.single(EngineCall::SetText { field: Field::PatientName, value: patientname })
    }

    /// Sets the patient code.
    pub fn set_patientcode(&mut self, patientcode: String) -> (r: Action)
        ensures
            old(self).same_file(final(self)),
            final(self).state() == old(self).state(),
            single_call(
                old(self).state(),
                CallView::SetText { field: Field::PatientCode, value: patientcode@ },
                final(self).pending(),
                r@,
            ),
    {
        self.single(EngineCall::SetText { field: Field::PatientCode, value: patientcode })
    }

    /// Sets the administration code.
    pub fn set_admincode(&mut self, admincode: String) -> (r: Action)
        ensures
            old(self).same_file(final(self)),
            final(self).state() == old(self).state(),
            single_call(
                old(self).state(),
                CallView::SetText { field: Field::AdminCode, value: admincode@ },
                final(self).pending(),
                r@,
            ),
    {
        self.single(EngineCall::SetText { field: Field::AdminCode, value: admincode })
    }

    /// Sets the technician's name.
    pub fn set_technician(&mut self, technician: String) -> (r: Action)
        ensures
            old(self).same_file(final(self)),
            final(self).state() == old(self).state(),
            single_call(
                old(self).state(),
                CallView::SetText { field: Field::Technician, value: technician@ },
                final(self).pending(),
                r@,
            ),
    {
        self.single(EngineCall::SetText { field: Field::Technician, value: technician })
    }

    /// Sets the recording equipment.
    pub fn set_equipment(&mut self, equipment: String) -> (r: Action)
        ensures
            old(self).same_file(final(self)),
            final(self).state() == old(self).state(),
            single_call(
                old(self).state(),
                CallView::SetText { field: Field::Equipment, value: equipment@ },
                final(self).pending(),
                r@,
            ),
    {
        self.single(EngineCall::SetText { field: Field::Equipment, value: equipment })
    }

    /// Sets additional recording information.
    pub fn set_recording_additional(&mut self, recording_additional: String) -> (r: Action)
        ensures
            old(self).same_file(final(self)),
            final(self).state() == old(self).state(),
            single_call(
                old(self).state(),
                CallView::SetText { field: Field::RecordingAdditional, value: recording_additional@ },
                final(self).pending(),
                r@,
            ),
    {
        self.single(EngineCall::SetText { field: Field::RecordingAdditional, value: recording_additional })
    }

    /// Sets the patient's sex: 0 for female, 1 for male.
    pub fn set_sex(&mut self, sex: i32) -> (r: Action)
        ensures
            old(self).same_file(final(self)),
            final(self).state() == old(self).state(),
            single_call(
                old(self).state(),
                CallView::SetNumber { field: Field::Sex, value: sex },
                final(self).pending(),
                r@,
            ),
    {
        self.single(EngineCall::SetNumber { field: Field::Sex, value: sex })
    }

    /// Sets a channel's transducer description.
    pub fn set_transducer(&mut self, edfsignal: i32, transducer: String) -> (r: Action)
        ensures
            old(self).same_file(final(self)),
            final(self).state() == old(self).state(),
            single_call(
                old(self).state(),
                CallView::SetText { field: Field::Transducer(edfsignal), value: transducer@ },
                final(self).pending(),
                r@,
            ),
    {
        self.single(EngineCall::SetText { field: Field::Transducer(edfsignal), value: transducer })
    }

    /// Sets a channel's physical unit.
    pub fn set_physical_dimension(&mut self, edfsignal: i32, phys_dim: String) -> (r: Action)
        ensures
            old(self).same_file(final(self)),
            final(self).state() == old(self).state(),
            single_call(
                old(self).state(),
                CallView::SetText { field: Field::PhysicalDimension(edfsignal), value: phys_dim@ },
                final(self).pending(),
                r@,
            ),
    {
        self.single(EngineCall::SetText { field: Field::PhysicalDimension(edfsignal), value: phys_dim })
    }

    /// Sets a channel's label.
    pub fn set_label(&mut self, edfsignal: i32, label: String) -> (r: Action)
        ensures
            old(self).same_file(final(self)),
            final(self).state() == old(self).state(),
            single_call(
                old(self).state(),
                CallView::SetText { field: Field::Label(edfsignal), value: label@ },
                final(self).pending(),
                r@,
            ),
    {
        self.single(EngineCall::SetText { field: Field::Label(edfsignal), value: label })
    }

    /// Sets a channel's samples per data record.
    pub fn set_samplefrequency(&mut self, edfsignal: i32, samplefrequency: i32) -> (r: Action)
        ensures
            old(self).same_file(final(self)),
            final(self).state() == old(self).state(),
            single_call(
                old(self).state(),
                CallView::SetNumber { field: Field::SampleFrequency(edfsignal), value: samplefrequency },
                final(self).pending(),
                r@,
            ),
    {
        self.single(EngineCall::SetNumber { field: Field::SampleFrequency(edfsignal), value: samplefrequency })
    }

    /// Sets a channel's digital maximum.
    pub fn set_digital_maximum(&mut self, edfsignal: i32, dig_max: i32) -> (r: Action)
        ensures
            old(self).same_file(final(self)),
            final(self).state() == old(self).state(),
            single_call(
                old(self).state(),
                CallView::SetNumber { field: Field::DigitalMaximum(edfsignal), value: dig_max },
                final(self).pending(),
                r@,
            ),
    {
        self.single(EngineCall::SetNumber { field: Field::DigitalMaximum(edfsignal), value: dig_max })
    }

    /// Sets a channel's digital minimum.
    pub fn set_digital_minimum(&mut self, edfsignal: i32, dig_min: i32) -> (r: Action)
        ensures
            old(self).same_file(final(self)),
            final(self).state() == old(self).state(),
            single_call(
                old(self).state(),
                CallView::SetNumber { field: Field::DigitalMinimum(edfsignal), value: dig_min },
                final(self).pending(),
                r@,
            ),
    {
        self.single(EngineCall::SetNumber { field: Field::DigitalMinimum(edfsignal), value: dig_min })
    }

    /// Sets a channel's physical maximum, given as a binary64 bit pattern.
    pub fn set_physical_maximum(&mut self, edfsignal: i32, phys_max_bits: u64) -> (r: Action)
        ensures
            old(self).same_file(final(self)),
            final(self).state() == old(self).state(),
            single_call(
                old(self).state(),
                CallView::SetPhysical { field: Field::PhysicalMaximum(edfsignal), bits: phys_max_bits },
                final(self).pending(),
                r@,
            ),
    {
        self.single(EngineCall::SetPhysical { field: Field::PhysicalMaximum(edfsignal), bits: phys_max_bits })
    }

    /// Sets a channel's physical minimum, given as a binary64 bit pattern.
    pub fn set_physical_minimum(&mut self, edfsignal: i32, phys_min_bits: u64) -> (r: Action)
        ensures
            old(self).same_file(final(self)),
            final(self).state() == old(self).state(),
            single_call(
                old(self).state(),
                CallView::SetPhysical { field: Field::PhysicalMinimum(edfsignal), bits: phys_min_bits },
                final(self).pending(),
                r@,
            ),
    {
        self.single(EngineCall::SetPhysical { field: Field::PhysicalMinimum(edfsignal), bits: phys_min_bits })
    }

    /// Sets where the annotation signal stands among the data signals.
    pub fn set_annot_chan_idx_pos(&mut self, position: AnnotationPosition) -> (r: Action)
        ensures
            old(self).same_file(final(self)),
            final(self).state() == old(self).state(),
            single_call(
                old(self).state(),
                CallView::SetNumber { field: Field::AnnotationPosition, value: position_code(position) },
                final(self).pending(),
                r@,
            ),
    {
        self.single(EngineCall::SetNumber { field: Field::AnnotationPosition, value: position.to_raw() })
    }

    /// Writes an annotation: onset and duration in microseconds, Latin-1 text.
    pub fn write_annotation(&mut self, onset: i64, duration: i64, description: String) -> (r: Action)
        ensures
            old(self).same_file(final(self)),
            final(self).state() == old(self).state(),
            single_call(
                old(self).state(),
                CallView::WriteAnnotation { onset, duration, description: description@ },
                final(self).pending(),
                r@,
            ),
    {
        self.single(EngineCall::WriteAnnotation { onset, duration, description })
    }

    /// Birth dates are not supported: fails with `UnsupportedOperation` and makes
    /// no engine call.
    pub fn set_birthdate(&mut self, birthdate: i32) -> (r: Action)
        ensures
            old(self).same_file(final(self)),
            final(self).state() == old(self).state(),
            final(self).pending() == Seq::<CallView>::empty(),
            r@ == ActionView::Done(Err(EdfError::UnsupportedOperation(Field::Birthdate))),
    {
        self.refuse(EdfError::UnsupportedOperation(Field::Birthdate))
    }

    /// Start date and time are not supported: fails with `UnsupportedOperation`
    /// and makes no engine call.
    pub fn set_startdatetime(&mut self, startdatetime: i32) -> (r: Action)
        ensures
            old(self).same_file(final(self)),
            final(self).state() == old(self).state(),
            final(self).pending() == Seq::<CallView>::empty(),
            r@ == ActionView::Done(Err(EdfError::UnsupportedOperation(Field::StartDateTime))),
    {
        self.refuse(EdfError::UnsupportedOperation(Field::StartDateTime))
    }

    /// Sets the number of annotation signals. A count beyond `i32::MAX` fails with
    /// `ConfigError` before any engine call.
    pub fn set_number_of_annotation_signals(&mut self, annot_signals: usize) -> (r: Action)
        ensures
            old(self).same_file(final(self)),
            final(self).state() == old(self).state(),
            annot_signals <= i32::MAX ==> single_call(
                old(self).state(),
                CallView::SetNumber { field: Field::AnnotationSignals, value: annot_signals as i32 },
                final(self).pending(),
                r@,
            ),
            annot_signals > i32::MAX ==> final(self).pending() == Seq::<CallView>::empty() && r@
                == ActionView::Done(Err(EdfError::ConfigError(Field::AnnotationSignals))),
    {
        if annot_signals > i32::MAX as usize {
            return self.refuse(EdfError::ConfigError(Field::AnnotationSignals));
        }
        self.single(EngineCall::SetNumber { field: Field::AnnotationSignals, value: annot_signals as i32 })
    }

    /// Sets the data-record duration, `secs` seconds and `micros` microseconds,
    /// in 10-microsecond ticks. A duration outside 0.001 s ..= 60 s fails with
    /// `ConfigError` before any engine call.
    pub fn set_recordingduration(&mut self, secs: u64, micros: u32) -> (r: Action)
        ensures
            old(self).same_file(final(self)),
            final(self).state() == old(self).state(),
            valid_record_duration(secs, micros) ==> single_call(
                old(self).state(),
                CallView::SetNumber {
                    field: Field::RecordingDuration,
                    value: duration_ticks(secs, micros) as i32,
                },
                final(self).pending(),
                r@,
            ),
            !valid_record_duration(secs, micros) ==> final(self).pending() == Seq::<
                CallView,
            >::empty() && r@ == ActionView::Done(Err(EdfError::ConfigError(Field::RecordingDuration))),
    {
        match record_duration_ticks(secs, micros) {
            None => self.refuse(EdfError::ConfigError(Field::RecordingDuration)),
            Some(ticks) => self.single(
                EngineCall::SetNumber { field: Field::RecordingDuration, value: ticks },
            ),
        }
    }

    /// Writes one channel's samples, one engine write per period of
    /// `samplefrequency` samples. A length that is not a whole number of periods
    /// fails with `ShapeError` before any engine call. The samples stand alone
    /// here, so their writes and errors name frame 0, channel 0.
    pub fn write_samples(&mut self, samples: &Vec<u64>, samplefrequency: usize) -> (r: Action)
        ensures
            old(self).same_file(final(self)),
            final(self).state() == old(self).state(),
            !(old(self).state() is Open) ==> final(self).pending() == Seq::<CallView>::empty() && r@
                == ActionView::Done(Err(EdfError::NotOpenError)),
            old(self).state() is Open && !whole_periods(samplefrequency as int, samples@.len() as int)
                ==> final(self).pending() == Seq::<CallView>::empty() && r@ == ActionView::Done(
                Err(EdfError::ShapeError { frame: 0, channel: 0 }),
            ),
            old(self).state() is Open && whole_periods(samplefrequency as int, samples@.len() as int)
                ==> final(self).pending() == channel_writes(samplefrequency as int, samples@, 0, 0)
                && r@ == first_action(old(self).state(), final(self).pending()),
    {
        if !matches!(self.state, SessionState::Open(_)) {
            return self.refuse(EdfError::NotOpenError);
        }
        if samplefrequency == 0 || samples.len() % samplefrequency != 0 {
            return self.refuse(EdfError::ShapeError { frame: 0, channel: 0 });
        }
        let mut plan: Vec<EngineCall> = Vec::new();
        assert(calls_view(plan@) =~= seq![]);
        push_channel_writes(&mut plan, samplefrequency, samples, 0, 0);
        assert(calls_view(plan@) =~= channel_writes(samplefrequency as int, samples@, 0, 0));
        self.run(plan)
    }
}

impl EngineCall {
    /// A copy of this call.
    pub fn clone_call(&self) -> (r: EngineCall)
        ensures
            r@ == self@,
    {
        match self {
            EngineCall::Open { path, filetype, signals } => {
                let p = path.clone();
                assert(p@ == path@);
                EngineCall::Open { path: p, filetype: *filetype, signals: *signals }
            },
            EngineCall::SetText { field, value } => EngineCall::SetText { field: *field, value: value.clone() },
            EngineCall::SetNumber { field, value } => EngineCall::SetNumber { field: *field, value: *value },
            EngineCall::SetPhysical { field, bits } => EngineCall::SetPhysical { field: *field, bits: *bits },
            EngineCall::WriteSamples { frame, channel, samples } => {
                let mut copy: Vec<u64> = Vec::new();
                let mut i: usize = 0;
                while i < samples.len()
                    invariant
                        i <= samples.len(),
                        copy@ =~= samples@.subrange(0, i as int),
                    decreases samples.len() - i,
                {
                    copy.push(samples[i]);
                    i += 1;
                }
                assert(copy@ =~= samples@);
                EngineCall::WriteSamples { frame: *frame, channel: *channel, samples: copy }
            },
            EngineCall::WriteAnnotation { onset, duration, description } => EngineCall::WriteAnnotation {
                onset: *onset,
                duration: *duration,
                description: description.clone(),
            },
            EngineCall::Close => EngineCall::Close,
        }
    }
}

} // verus!
