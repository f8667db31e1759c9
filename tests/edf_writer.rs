use edflib::engine::{EdfError, EngineCall, Field};
use edflib::header::{AnnotationPosition, EDFChannel, EDFHeader, EDFPatientInfo, Filetype};
use edflib::pipeline::Warning;
use edflib::session::{Action, Edf, SessionState};
use edflib::writer::EDFWriter;

/// An in-memory codec engine: records every call, hands out handles, and
/// rejects the calls its filter picks.
struct StubEngine {
    log: Vec<(i32, EngineCall)>,
    files: Vec<String>,
    next_handle: i32,
    reject: fn(&EngineCall) -> bool,
}

fn accept_all(_: &EngineCall) -> bool {
    false
}

impl StubEngine {
    fn new() -> StubEngine {
        StubEngine { log: Vec::new(), files: Vec::new(), next_handle: 0, reject: accept_all }
    }

    fn rejecting(reject: fn(&EngineCall) -> bool) -> StubEngine {
        StubEngine { reject, ..StubEngine::new() }
    }

    fn perform(&mut self, handle: i32, call: &EngineCall) -> i32 {
        self.log.push((handle, call.clone()));
        if (self.reject)(call) {
            return -1;
        }
        match call {
            EngineCall::Open { path, .. } => {
                self.files.push(path.clone());
                let h = self.next_handle;
                self.next_handle += 1;
                h
            }
            _ => 0,
        }
    }

    fn file_exists(&self, path: &str) -> bool {
        self.files.iter().any(|f| f == path)
    }

    fn writes(&self) -> Vec<(usize, usize, Vec<u64>)> {
        self.log
            .iter()
            .filter_map(|(_, c)| match c {
                EngineCall::WriteSamples { frame, channel, samples } => {
                    Some((*frame, *channel, samples.clone()))
                }
                _ => None,
            })
            .collect()
    }

    fn closes(&self) -> usize {
        self.log.iter().filter(|(_, c)| matches!(c, EngineCall::Close)).count()
    }
}

fn run_edf(edf: &mut Edf, engine: &mut StubEngine, first: Action) -> Result<(), EdfError> {
    let mut action = first;
    loop {
        match action {
            Action::Done(r) => return r,
            Action::Call { handle, call } => {
                let status = engine.perform(handle, &call);
                action = edf.resume(status);
            }
        }
    }
}

fn run_writer(w: &mut EDFWriter, engine: &mut StubEngine, first: Action) -> Result<(), EdfError> {
    let mut action = first;
    loop {
        match action {
            Action::Done(r) => return r,
            Action::Call { handle, call } => {
                let status = engine.perform(handle, &call);
                action = w.resume(status);
            }
        }
    }
}

fn opened_edf(engine: &mut StubEngine, path: &str) -> Edf {
    let mut edf = Edf::new(path.to_string(), 1);
    let a = edf.open_file_writeonly();
    run_edf(&mut edf, engine, a).unwrap();
    edf
}

fn channel(label: &str, freq: i32) -> EDFChannel {
    EDFChannel {
        label: label.to_string(),
        transducer: "AgAgCl cup electrodes".to_string(),
        digital_max: 32767,
        digital_min: -32768,
        physical_max_bits: 2000.0f64.to_bits(),
        physical_min_bits: (-2000.0f64).to_bits(),
        physical_dimension: "mV".to_string(),
        sample_frequency: freq,
    }
}

fn header(freqs: &[i32]) -> EDFHeader {
    EDFHeader {
        patient_info: EDFPatientInfo {
            patient_name: "Demo".to_string(),
            patient_code: "0001".to_string(),
            sex: 0,
            admin_code: "0001".to_string(),
            technician: "DYZS".to_string(),
            equipment: "DYZS".to_string(),
        },
        channels: freqs.iter().enumerate().map(|(i, f)| channel(&format!("ch{}", i), *f)).collect(),
    }
}

fn opened_writer(engine: &mut StubEngine, freqs: &[i32]) -> EDFWriter {
    let mut w = EDFWriter::new("out.edf".to_string(), header(freqs));
    let a = w.open();
    run_writer(&mut w, engine, a).unwrap();
    w
}

fn ramp(start: u64, n: usize) -> Vec<u64> {
    (0..n as u64).map(|k| ((start + k) as f64).to_bits()).collect()
}

#[test]
fn test_open_file_writeonly() {
    let mut engine = StubEngine::new();
    let path = "recording.edf";
    let mut edf = Edf::new(path.to_string(), 1);
    let a = edf.open_file_writeonly();
    assert!(run_edf(&mut edf, &mut engine, a).is_ok());
    assert!(engine.file_exists(path));
}

#[test]
fn test_set_samplefrequency() {
    let mut engine = StubEngine::new();
    let mut edf = opened_edf(&mut engine, "recording.edf");
    let a = edf.set_samplefrequency(0, 256);
    assert!(run_edf(&mut edf, &mut engine, a).is_ok());
}

#[test]
fn test_set_digital_maximum() {
    let mut engine = StubEngine::new();
    let mut edf = opened_edf(&mut engine, "recording.edf");
    let a = edf.set_digital_maximum(0, 32767);
    assert!(run_edf(&mut edf, &mut engine, a).is_ok());
}

#[test]
fn test_set_digital_minimum() {
    let mut engine = StubEngine::new();
    let mut edf = opened_edf(&mut engine, "recording.edf");
    let a = edf.set_digital_minimum(0, -32768);
    assert!(run_edf(&mut edf, &mut engine, a).is_ok());
}

#[test]
fn test_set_physical_dimension() {
    let mut engine = StubEngine::new();
    let mut edf = opened_edf(&mut engine, "recording.edf");
    let a = edf.set_physical_dimension(0, "uV".to_string());
    assert!(run_edf(&mut edf, &mut engine, a).is_ok());
}

#[test]
fn test_set_label() {
    let mut engine = StubEngine::new();
    let mut edf = opened_edf(&mut engine, "recording.edf");
    let a = edf.set_label(0, "EEG Fp1".to_string());
    assert!(run_edf(&mut edf, &mut engine, a).is_ok());
}

#[test]
fn test_set_equipment() {
    let mut engine = StubEngine::new();
    let mut edf = opened_edf(&mut engine, "recording.edf");
    let a = edf.set_equipment("Neuroscan".to_string());
    assert!(run_edf(&mut edf, &mut engine, a).is_ok());
}

#[test]
fn test_set_annot_chan_idx_pos() {
    let mut engine = StubEngine::new();
    let path = "recording.edf";
    let mut edf = opened_edf(&mut engine, path);
    let a = edf.set_annot_chan_idx_pos(AnnotationPosition::Start);
    assert!(run_edf(&mut edf, &mut engine, a).is_ok());
    let a = edf.finish();
    assert!(run_edf(&mut edf, &mut engine, a).is_ok());
    assert!(engine.file_exists(path));
}

#[test]
fn test_set_number_of_annotation_signals() {
    let mut engine = StubEngine::new();
    let mut edf = opened_edf(&mut engine, "recording.edf");
    let a = edf.set_number_of_annotation_signals(1);
    assert!(run_edf(&mut edf, &mut engine, a).is_ok());
}

#[test]
fn test_write_samples() {
    let mut engine = StubEngine::new();
    let mut edf = opened_edf(&mut engine, "recording.edf");
    let sample_rate = 256.0;
    let duration = 10.0;
    let num_samples = (sample_rate * duration) as usize;
    let mut data: Vec<u64> = Vec::with_capacity(num_samples);
    for i in 0..num_samples {
        let t = i as f64 / sample_rate;
        let value = (2.0 * std::f64::consts::PI * 20.0 * t).sin();
        data.push(value.to_bits());
    }
    let a = edf.write_samples(&data, 256);
    assert!(run_edf(&mut edf, &mut engine, a).is_ok());
}

#[test]
fn test_write_annotation() {
    let mut engine = StubEngine::new();
    let mut edf = opened_edf(&mut engine, "recording.edf");
    let a = edf.write_annotation(0, 100, "Test Annotation".to_string());
    assert!(run_edf(&mut edf, &mut engine, a).is_ok());
}

#[test]
fn test_finish() {
    let mut engine = StubEngine::new();
    let path = "recording.edf";
    let mut edf = opened_edf(&mut engine, path);
    let a = edf.finish();
    assert!(run_edf(&mut edf, &mut engine, a).is_ok());
    assert!(engine.file_exists(path));
}

#[test]
fn duration_within_range_is_accepted() {
    for (secs, micros, ticks) in [(0u64, 1000u32, 100i32), (0, 500_000, 50_000), (60, 0, 6_000_000), (1, 5, 100_000)] {
        let mut engine = StubEngine::new();
        let mut edf = opened_edf(&mut engine, "recording.edf");
        let a = edf.set_recordingduration(secs, micros);
        match &a {
            Action::Call { call: EngineCall::SetNumber { field: Field::RecordingDuration, value }, .. } => {
                assert_eq!(*value, ticks)
            }
            other => panic!("unexpected action {:?}", other),
        }
        assert!(run_edf(&mut edf, &mut engine, a).is_ok());
    }
}

#[test]
fn duration_out_of_range_never_reaches_engine() {
    for (secs, micros) in [(0u64, 999u32), (0, 0), (60, 1), (61, 0), (u64::MAX, 0)] {
        let mut engine = StubEngine::new();
        let mut edf = opened_edf(&mut engine, "recording.edf");
        let calls_before = engine.log.len();
        let a = edf.set_recordingduration(secs, micros);
        assert_eq!(
            run_edf(&mut edf, &mut engine, a),
            Err(EdfError::ConfigError(Field::RecordingDuration))
        );
        assert_eq!(engine.log.len(), calls_before);
    }
}

#[test]
fn clean_frames_write_once_per_channel_in_order() {
    let mut engine = StubEngine::new();
    let mut w = opened_writer(&mut engine, &[4, 2]);
    let mut frames = vec![
        vec![ramp(0, 4), ramp(100, 2)],
        vec![ramp(10, 4), ramp(110, 2)],
        vec![ramp(20, 4), ramp(120, 2)],
    ];
    let given = frames.clone();
    let (a, repairs) = w.write_multi_frames(&mut frames);
    assert!(repairs.is_empty());
    assert!(run_writer(&mut w, &mut engine, a).is_ok());
    let writes = engine.writes();
    assert_eq!(writes.len(), 6);
    for f in 0..3 {
        for c in 0..2 {
            assert_eq!(writes[f * 2 + c], (f, c, given[f][c].clone()));
        }
    }
    assert_eq!(frames, given);
}

#[test]
fn finish_twice_closes_once() {
    let mut engine = StubEngine::new();
    let mut w = opened_writer(&mut engine, &[4]);
    let a = w.finish();
    assert!(run_writer(&mut w, &mut engine, a).is_ok());
    assert_eq!(w.session_state(), SessionState::Closed);
    let a = w.finish();
    assert!(run_writer(&mut w, &mut engine, a).is_ok());
    assert_eq!(engine.closes(), 1);
}

#[test]
fn frame_with_other_channel_count_repeats_previous() {
    let mut engine = StubEngine::new();
    let mut w = opened_writer(&mut engine, &[2, 2]);
    let f0 = vec![ramp(0, 2), ramp(10, 2)];
    let f1 = vec![ramp(20, 2)];
    let mut frames = vec![f0.clone(), f1];
    let (a, repairs) = w.write_multi_frames(&mut frames);
    assert_eq!(repairs, vec![Warning::FrameReplaced { frame: 1 }]);
    assert!(run_writer(&mut w, &mut engine, a).is_ok());
    assert_eq!(
        engine.writes(),
        vec![
            (0, 0, f0[0].clone()),
            (0, 1, f0[1].clone()),
            (1, 0, f0[0].clone()),
            (1, 1, f0[1].clone())
        ]
    );
    assert_eq!(frames, vec![f0.clone(), f0]);
}

#[test]
fn nan_channel_takes_previous_frame_channel() {
    let mut engine = StubEngine::new();
    let mut w = opened_writer(&mut engine, &[2, 2, 2]);
    let f0 = vec![ramp(0, 2), ramp(10, 2), ramp(20, 2)];
    let f1 = vec![ramp(30, 2), ramp(40, 2), vec![1.5f64.to_bits(), f64::NAN.to_bits()]];
    let mut frames = vec![f0.clone(), f1.clone()];
    let (a, repairs) = w.write_multi_frames(&mut frames);
    assert_eq!(repairs, vec![Warning::ChannelReplaced { frame: 1, channel: 2 }]);
    assert!(run_writer(&mut w, &mut engine, a).is_ok());
    let writes = engine.writes();
    assert_eq!(writes[3], (1, 0, f1[0].clone()));
    assert_eq!(writes[4], (1, 1, f1[1].clone()));
    assert_eq!(writes[5], (1, 2, f0[2].clone()));
}

#[test]
fn nan_detection_on_bit_patterns() {
    assert!(edflib::pipeline::is_nan(f64::NAN.to_bits()));
    assert!(edflib::pipeline::is_nan(0x7ff0_0000_0000_0001));
    assert!(edflib::pipeline::is_nan(0xfff8_0000_0000_0000));
    assert!(!edflib::pipeline::is_nan(f64::INFINITY.to_bits()));
    assert!(!edflib::pipeline::is_nan(f64::NEG_INFINITY.to_bits()));
    assert!(!edflib::pipeline::is_nan(1.0f64.to_bits()));
    assert!(!edflib::pipeline::has_nan(&vec![]));
    assert!(edflib::pipeline::has_nan(&vec![0, f64::NAN.to_bits()]));
}

#[test]
fn empty_batch_succeeds_without_engine_calls() {
    let mut engine = StubEngine::new();
    let mut w = opened_writer(&mut engine, &[4]);
    let calls_before = engine.log.len();
    let mut frames: Vec<Vec<Vec<u64>>> = Vec::new();
    let (a, repairs) = w.write_multi_frames(&mut frames);
    assert!(repairs.is_empty());
    assert!(matches!(a, Action::Done(Ok(()))));
    assert_eq!(engine.log.len(), calls_before);
}

#[test]
fn two_channel_ten_second_recording() {
    let mut engine = StubEngine::new();
    let path = "generator.bdf";
    let mut w = EDFWriter::new(path.to_string(), header(&[256, 256]));
    let a = w.open();
    assert!(run_writer(&mut w, &mut engine, a).is_ok());
    match &engine.log[0].1 {
        EngineCall::Open { filetype, signals, .. } => {
            assert_eq!(*filetype, Filetype::BDF);
            assert_eq!(*signals, 2);
        }
        other => panic!("first call was {:?}", other),
    }
    let mut frames: Vec<Vec<Vec<u64>>> = Vec::new();
    for _ in 0..10 {
        let mut ch0 = Vec::new();
        let mut ch1 = Vec::new();
        for i in 0..256 {
            let t = i as f64 / 256.0;
            ch0.push(((2.0 * std::f64::consts::PI * 20.0 * t).sin() * 1000.0).to_bits());
            ch1.push(((2.0 * std::f64::consts::PI * 50.0 * t).sin() * 1000.0).to_bits());
        }
        frames.push(vec![ch0, ch1]);
    }
    let (a, _) = w.write_multi_frames(&mut frames);
    assert!(run_writer(&mut w, &mut engine, a).is_ok());
    let writes = engine.writes();
    assert_eq!(writes.len(), 20);
    for (k, (f, c, s)) in writes.iter().enumerate() {
        assert_eq!((*f, *c), (k / 2, k % 2));
        assert_eq!(s.len(), 256);
    }
    let a = w.write_annotation(0, 0, "Start of recording".to_string());
    assert!(run_writer(&mut w, &mut engine, a).is_ok());
    let a = w.write_annotation(10_000_000, 0, "End of recording".to_string());
    assert!(run_writer(&mut w, &mut engine, a).is_ok());
    let a = w.finish();
    assert!(run_writer(&mut w, &mut engine, a).is_ok());
    assert!(engine.file_exists(path));
    assert_eq!(engine.closes(), 1);
}

#[test]
fn header_setup_order() {
    let mut engine = StubEngine::new();
    let _w = opened_writer(&mut engine, &[128]);
    let fields: Vec<Option<Field>> = engine
        .log
        .iter()
        .map(|(_, c)| match c {
            EngineCall::SetText { field, .. } => Some(*field),
            EngineCall::SetNumber { field, .. } => Some(*field),
            EngineCall::SetPhysical { field, .. } => Some(*field),
            _ => None,
        })
        .collect();
    assert_eq!(
        fields,
        vec![
            None,
            Some(Field::Equipment),
            Some(Field::PatientName),
            Some(Field::PatientCode),
            Some(Field::Sex),
            Some(Field::AdminCode),
            Some(Field::Technician),
            Some(Field::Label(0)),
            Some(Field::Transducer(0)),
            Some(Field::DigitalMaximum(0)),
            Some(Field::DigitalMinimum(0)),
            Some(Field::PhysicalMaximum(0)),
            Some(Field::PhysicalMinimum(0)),
            Some(Field::PhysicalDimension(0)),
            Some(Field::SampleFrequency(0)),
        ]
    );
    for (handle, _) in &engine.log[1..] {
        assert_eq!(*handle, 0);
    }
    match &engine.log[11].1 {
        EngineCall::SetPhysical { bits, .. } => assert_eq!(f64::from_bits(*bits), 2000.0),
        other => panic!("unexpected call {:?}", other),
    }
}

#[test]
fn writes_before_open_fail() {
    let mut engine = StubEngine::new();
    let mut w = EDFWriter::new("out.edf".to_string(), header(&[2]));
    let mut frames = vec![vec![ramp(0, 2)]];
    let (a, _) = w.write_multi_frames(&mut frames);
    assert_eq!(run_writer(&mut w, &mut engine, a), Err(EdfError::NotOpenError));
    let (a, _) = w.write_sample_stream(&vec![ramp(0, 2)]);
    assert_eq!(run_writer(&mut w, &mut engine, a), Err(EdfError::NotOpenError));
    let a = w.write_annotation(0, 0, "x".to_string());
    assert_eq!(run_writer(&mut w, &mut engine, a), Err(EdfError::NotOpenError));
    let mut edf = Edf::new("out.edf".to_string(), 1);
    let a = edf.set_label(0, "x".to_string());
    assert_eq!(run_edf(&mut edf, &mut engine, a), Err(EdfError::NotOpenError));
    assert!(engine.log.is_empty());
    let a = w.finish();
    assert!(run_writer(&mut w, &mut engine, a).is_ok());
    assert!(engine.log.is_empty());
}

#[test]
fn shape_errors_stop_the_batch_before_any_write() {
    let mut engine = StubEngine::new();
    let mut w = opened_writer(&mut engine, &[256, 256]);
    let calls_before = engine.log.len();
    let mut frames = vec![vec![ramp(0, 256), ramp(0, 256)], vec![ramp(0, 256), ramp(0, 300)]];
    let (a, _) = w.write_multi_frames(&mut frames);
    assert_eq!(
        run_writer(&mut w, &mut engine, a),
        Err(EdfError::ShapeError { frame: 1, channel: 1 })
    );
    let (a, _) = w.write_sample_stream(&vec![ramp(0, 256)]);
    assert_eq!(
        run_writer(&mut w, &mut engine, a),
        Err(EdfError::ChannelCountError { frame: 0, found: 1 })
    );
    assert_eq!(engine.log.len(), calls_before);
}

#[test]
fn whole_multiples_are_chunked_per_period() {
    let mut engine = StubEngine::new();
    let mut w = opened_writer(&mut engine, &[4]);
    let data = ramp(0, 12);
    let (a, warnings) = w.write_sample_stream(&vec![data.clone()]);
    assert_eq!(warnings, vec![Warning::SampleCountMismatch { frame: 0, channel: 0, found: 12 }]);
    assert!(run_writer(&mut w, &mut engine, a).is_ok());
    assert_eq!(
        engine.writes(),
        vec![(0, 0, data[0..4].to_vec()), (0, 0, data[4..8].to_vec()), (0, 0, data[8..12].to_vec())]
    );
    let mut edf = opened_edf(&mut engine, "x.edf");
    let a = edf.write_samples(&ramp(0, 10), 4);
    assert_eq!(run_edf(&mut edf, &mut engine, a), Err(EdfError::ShapeError { frame: 0, channel: 0 }));
    let a = edf.write_samples(&ramp(0, 10), 0);
    assert_eq!(run_edf(&mut edf, &mut engine, a), Err(EdfError::ShapeError { frame: 0, channel: 0 }));
}

fn reject_open(c: &EngineCall) -> bool {
    matches!(c, EngineCall::Open { .. })
}

fn reject_transducer(c: &EngineCall) -> bool {
    matches!(c, EngineCall::SetText { field: Field::Transducer(1), .. })
}

fn reject_second_frame(c: &EngineCall) -> bool {
    matches!(c, EngineCall::WriteSamples { frame: 1, channel: 0, .. })
}

fn reject_annotation(c: &EngineCall) -> bool {
    matches!(c, EngineCall::WriteAnnotation { .. })
}

fn reject_close(c: &EngineCall) -> bool {
    matches!(c, EngineCall::Close)
}

#[test]
fn engine_rejections_name_the_failed_operation() {
    let mut engine = StubEngine::rejecting(reject_open);
    let mut w = EDFWriter::new("out.edf".to_string(), header(&[2]));
    let a = w.open();
    assert_eq!(run_writer(&mut w, &mut engine, a), Err(EdfError::OpenError));
    assert_eq!(engine.log.len(), 1);
    assert_eq!(w.session_state(), SessionState::Unopened);

    let mut engine = StubEngine::rejecting(reject_transducer);
    let mut w = EDFWriter::new("out.edf".to_string(), header(&[2, 2]));
    let a = w.open();
    assert_eq!(
        run_writer(&mut w, &mut engine, a),
        Err(EdfError::ConfigError(Field::Transducer(1)))
    );
    assert_eq!(engine.log.len(), 1 + 6 + 8 + 2);

    let mut engine = StubEngine::rejecting(reject_second_frame);
    let mut w = opened_writer(&mut engine, &[2]);
    let mut frames = vec![vec![ramp(0, 2)], vec![ramp(2, 2)], vec![ramp(4, 2)]];
    let (a, _) = w.write_multi_frames(&mut frames);
    assert_eq!(
        run_writer(&mut w, &mut engine, a),
        Err(EdfError::WriteError { frame: 1, channel: 0 })
    );
    assert_eq!(engine.writes().len(), 2);

    let mut engine = StubEngine::rejecting(reject_annotation);
    let mut w = opened_writer(&mut engine, &[2]);
    let a = w.write_annotation(-5, 10, "marker".to_string());
    assert_eq!(run_writer(&mut w, &mut engine, a), Err(EdfError::AnnotationError));

    let mut engine = StubEngine::rejecting(reject_close);
    let mut w = opened_writer(&mut engine, &[2]);
    let a = w.finish();
    assert_eq!(run_writer(&mut w, &mut engine, a), Err(EdfError::CloseError));
    assert_eq!(w.session_state(), SessionState::Closed);
    let a = w.finish();
    assert!(run_writer(&mut w, &mut engine, a).is_ok());
    assert_eq!(engine.closes(), 1);
}

#[test]
fn reopening_and_unsupported_fields_fail() {
    let mut engine = StubEngine::new();
    let mut w = opened_writer(&mut engine, &[2]);
    let a = w.open();
    assert_eq!(run_writer(&mut w, &mut engine, a), Err(EdfError::OpenError));
    let mut edf = opened_edf(&mut engine, "a.edf");
    let a = edf.open_file_writeonly();
    assert_eq!(run_edf(&mut edf, &mut engine, a), Err(EdfError::OpenError));
    let a = edf.set_birthdate(19900101);
    assert_eq!(
        run_edf(&mut edf, &mut engine, a),
        Err(EdfError::UnsupportedOperation(Field::Birthdate))
    );
    let a = edf.set_startdatetime(0);
    assert_eq!(
        run_edf(&mut edf, &mut engine, a),
        Err(EdfError::UnsupportedOperation(Field::StartDateTime))
    );
    let a = edf.set_number_of_annotation_signals(usize::MAX);
    assert_eq!(
        run_edf(&mut edf, &mut engine, a),
        Err(EdfError::ConfigError(Field::AnnotationSignals))
    );
}

#[test]
fn filetype_follows_extension() {
    assert_eq!(Filetype::from_path("a/b/rec.bdf"), Filetype::BDF);
    assert_eq!(Filetype::from_path("rec.edf"), Filetype::EDF);
    assert_eq!(Filetype::from_path("rec.BDF"), Filetype::EDF);
    assert_eq!(Filetype::from_path("bdf"), Filetype::EDF);
    assert_eq!(Filetype::from_path(""), Filetype::EDF);
    assert_eq!(Filetype::from_path(".bdf"), Filetype::EDF);
    assert_eq!(Filetype::from_path("dir/.bdf"), Filetype::EDF);
    assert_eq!(Filetype::from_path("/tmp/.bdf"), Filetype::EDF);
    assert_eq!(Filetype::from_path("rec.bdf/"), Filetype::BDF);
    assert_eq!(Filetype::from_path("rec.bdf//"), Filetype::BDF);
    assert_eq!(Filetype::from_path("dir/..bdf"), Filetype::BDF);
    assert_eq!(Filetype::from_path("rec.edf/"), Filetype::EDF);
    assert_eq!(Filetype::from_path("/"), Filetype::EDF);
    assert_eq!(Filetype::BDF.as_str(), "bdf");
    assert_eq!(Filetype::EDF.to_raw(), 1);
    assert_eq!(Filetype::BDF.to_raw(), 3);
    assert_eq!(AnnotationPosition::Start.to_raw(), 2);
    assert_eq!(AnnotationPosition::Middle.to_raw(), 1);
    assert_eq!(AnnotationPosition::End.to_raw(), 0);
}

#[test]
fn sample_count_mismatches_are_reported_not_fatal() {
    let mut engine = StubEngine::new();
    let mut w = opened_writer(&mut engine, &[2, 3]);
    let mut frames = vec![
        vec![ramp(0, 2), ramp(0, 3)],
        vec![ramp(0, 4), vec![f64::NAN.to_bits(), 0, 0]],
    ];
    let (a, warnings) = w.write_multi_frames(&mut frames);
    assert_eq!(
        warnings,
        vec![
            Warning::ChannelReplaced { frame: 1, channel: 1 },
            Warning::SampleCountMismatch { frame: 1, channel: 0, found: 4 },
        ]
    );
    assert!(run_writer(&mut w, &mut engine, a).is_ok());
    assert_eq!(engine.writes().len(), 5);
}

#[test]
fn text_is_encoded_as_latin1() {
    assert_eq!(edflib::engine::to_latin1("Gr\u{fc}\u{df}e \u{20ac}"), vec![b'G', b'r', 0xfc, 0xdf, b'e', b' ', b'?']);
    assert_eq!(edflib::engine::to_latin1("a\0b"), vec![b'a', b'?', b'b']);
    assert!(edflib::engine::to_latin1("").is_empty());
}

#[test]
fn repair_keeps_first_frame_and_chains_previous_accepted() {
    let nan = f64::NAN.to_bits();
    let f0 = vec![vec![1, nan], vec![2, 3]];
    let f1 = vec![vec![4, 5]];
    let f2 = vec![vec![nan, 6], vec![7, 8]];
    let mut frames = vec![f0.clone(), f1, f2];
    let log = edflib::pipeline::repair_frames(&mut frames);
    assert_eq!(
        log,
        vec![
            Warning::ChannelReplaced { frame: 0, channel: 0 },
            Warning::FrameReplaced { frame: 1 },
            Warning::ChannelReplaced { frame: 2, channel: 0 },
        ]
    );
    assert_eq!(frames, vec![f0.clone(), f0.clone(), vec![f0[0].clone(), vec![7, 8]]]);
}

#[test]
fn hidden_bdf_name_opens_as_edf() {
    let mut engine = StubEngine::new();
    let mut edf = Edf::new("dir/.bdf".to_string(), 1);
    let a = edf.open_file_writeonly();
    match &a {
        Action::Call { call: EngineCall::Open { filetype, .. }, .. } => assert_eq!(*filetype, Filetype::EDF),
        other => panic!("unexpected action {:?}", other),
    }
    assert!(run_edf(&mut edf, &mut engine, a).is_ok());
}

#[test]
fn invalid_channels_are_refused_before_open() {
    let cases: Vec<(EDFChannel, Field)> = vec![
        (channel("a", 0), Field::SampleFrequency(1)),
        (channel("a", -5), Field::SampleFrequency(1)),
        (EDFChannel { digital_min: 10, digital_max: 10, ..channel("a", 4) }, Field::DigitalMinimum(1)),
        (
            EDFChannel {
                physical_min_bits: 5.0f64.to_bits(),
                physical_max_bits: (-5.0f64).to_bits(),
                ..channel("a", 4)
            },
            Field::PhysicalMinimum(1),
        ),
        (
            EDFChannel {
                physical_min_bits: 0.0f64.to_bits(),
                physical_max_bits: (-0.0f64).to_bits(),
                ..channel("a", 4)
            },
            Field::PhysicalMinimum(1),
        ),
        (EDFChannel { physical_max_bits: f64::NAN.to_bits(), ..channel("a", 4) }, Field::PhysicalMinimum(1)),
    ];
    for (bad, field) in cases {
        let mut engine = StubEngine::new();
        let mut h = header(&[4]);
        h.channels.push(bad);
        let mut w = EDFWriter::new("out.edf".to_string(), h);
        let a = w.open();
        assert_eq!(run_writer(&mut w, &mut engine, a), Err(EdfError::ConfigError(field)));
        assert!(engine.log.is_empty());
        assert_eq!(w.session_state(), SessionState::Unopened);
    }
    let mut engine = StubEngine::new();
    let mut h = header(&[4]);
    h.channels[0].physical_min_bits = (-1.5f64).to_bits();
    h.channels[0].physical_max_bits = (-0.5f64).to_bits();
    let mut w = EDFWriter::new("out.edf".to_string(), h);
    let a = w.open();
    assert!(run_writer(&mut w, &mut engine, a).is_ok());
}
