use std::cell::RefCell;
use std::rc::Rc;

use rm3100::Config;
use rm3100::RM3100;
use rm3100::Transport;
use rm3100::pipeline::BUFFER_SIZE;
use rm3100::pipeline::CMD_QUERY_OVERFLOW;
use rm3100::pipeline::CMD_READ_SAMPLE;
use rm3100::pipeline::Pipeline;

/// A scripted sensor bus for the pipeline: write transactions are counted,
/// and each read transaction answers the next scripted sample.
#[derive(Default)]
struct SensorState {
    /// Samples handed out by successive measurement reads, as the three
    /// big-endian payload bytes.
    samples: Vec<[u8; 3]>,
    writes: usize,
}

#[derive(Clone, Default)]
struct MockSensorBus(Rc<RefCell<SensorState>>);

impl MockSensorBus {
    fn with_samples(samples: Vec<[u8; 3]>) -> Self {
        MockSensorBus(Rc::new(RefCell::new(SensorState { samples, writes: 0 })))
    }

    fn writes(&self) -> usize {
        self.0.borrow().writes
    }
}

impl Transport for MockSensorBus {
    fn select(&mut self) {}

    fn deselect(&mut self) {}

    fn transfer<const N: usize>(&mut self, buf: &mut [u8; N]) {
        let mut state = self.0.borrow_mut();
        let payload = if state.samples.is_empty() {
            [0, 0, 0]
        } else {
            state.samples.remove(0)
        };
        for i in 0..N {
            buf[i] = 0;
        }
        for i in 0..3 {
            if i + 1 < N {
                buf[i + 1] = payload[i];
            }
        }
    }

    fn write<const N: usize>(&mut self, _buf: &[u8; N]) {
        self.0.borrow_mut().writes += 1;
    }
}

fn pipeline_with(samples: Vec<[u8; 3]>) -> (Pipeline<MockSensorBus>, MockSensorBus) {
    let bus = MockSensorBus::with_samples(samples);
    let pipeline = Pipeline::new(RM3100::new(bus.clone(), Config::default()));
    (pipeline, bus)
}

#[test]
fn empty_queue_answers_five_zero_bytes() {
    let (mut pipeline, _bus) = pipeline_with(vec![]);
    assert_eq!(pipeline.handle_command(CMD_READ_SAMPLE), vec![0, 0, 0, 0, 0]);
}

#[test]
fn queued_sample_is_served_big_endian() {
    let (mut pipeline, _bus) = pipeline_with(vec![]);
    assert!(pipeline.push_sample(0x00010203));
    assert_eq!(
        pipeline.handle_command(CMD_READ_SAMPLE),
        vec![1, 0x00, 0x01, 0x02, 0x03]
    );
    assert_eq!(pipeline.handle_command(CMD_READ_SAMPLE), vec![0, 0, 0, 0, 0]);
}

#[test]
fn negative_sample_keeps_its_sign_on_the_wire() {
    let (mut pipeline, _bus) = pipeline_with(vec![]);
    assert!(pipeline.push_sample(-8388608));
    assert_eq!(
        pipeline.handle_command(CMD_READ_SAMPLE),
        vec![1, 0xFF, 0x80, 0x00, 0x00]
    );
}

#[test]
fn samples_are_served_in_capture_order() {
    let (mut pipeline, _bus) = pipeline_with(vec![]);
    assert!(pipeline.push_sample(1));
    assert!(pipeline.push_sample(2));
    assert_eq!(pipeline.handle_command(CMD_READ_SAMPLE), vec![1, 0, 0, 0, 1]);
    assert_eq!(pipeline.handle_command(CMD_READ_SAMPLE), vec![1, 0, 0, 0, 2]);
}

#[test]
fn unknown_opcode_gets_empty_response() {
    let (mut pipeline, _bus) = pipeline_with(vec![]);
    assert_eq!(pipeline.handle_command(0x00), Vec::<u8>::new());
    assert_eq!(pipeline.handle_command(0x7F), Vec::<u8>::new());
    assert_eq!(pipeline.handle_command(0x82), Vec::<u8>::new());
}

#[test]
fn overflow_flag_starts_clear() {
    let (mut pipeline, _bus) = pipeline_with(vec![]);
    assert_eq!(pipeline.handle_command(CMD_QUERY_OVERFLOW), vec![0]);
}

#[test]
fn overflow_flag_latches_across_later_traffic() {
    let (mut pipeline, _bus) = pipeline_with(vec![]);
    for i in 0..BUFFER_SIZE - 1 {
        assert!(pipeline.push_sample(i as i32));
    }
    assert!(!pipeline.push_sample(999));
    assert_eq!(pipeline.handle_command(CMD_QUERY_OVERFLOW), vec![1]);
    // Later pops and successful pushes do not clear the flag.
    pipeline.handle_command(CMD_READ_SAMPLE);
    assert!(pipeline.push_sample(7));
    assert_eq!(pipeline.handle_command(CMD_READ_SAMPLE), vec![1, 0, 0, 0, 7]);
    assert_eq!(pipeline.handle_command(CMD_QUERY_OVERFLOW), vec![1]);
}

#[test]
fn trigger_then_data_ready_captures_one_sample() {
    let (mut pipeline, bus) = pipeline_with(vec![[0x00, 0x01, 0x02]]);
    assert!(!pipeline.trigger_output());

    pipeline.on_trigger();
    // The trigger edge starts a measurement and raises the diagnostic
    // output, but captures nothing yet.
    assert!(pipeline.trigger_output());
    assert_eq!(bus.writes(), 1);
    assert_eq!(pipeline.handle_command(CMD_READ_SAMPLE), vec![0, 0, 0, 0, 0]);

    pipeline.on_trigger();
    pipeline.on_data_ready();
    // The data-ready edge drops the output and queues exactly one sample.
    assert!(!pipeline.trigger_output());
    assert_eq!(
        pipeline.handle_command(CMD_READ_SAMPLE),
        vec![1, 0x00, 0x00, 0x01, 0x02]
    );
    assert_eq!(pipeline.handle_command(CMD_READ_SAMPLE), vec![0, 0, 0, 0, 0]);
}

#[test]
fn data_ready_overflow_latches_flag() {
    let (mut pipeline, _bus) = pipeline_with(vec![]);
    for _ in 0..BUFFER_SIZE {
        pipeline.on_trigger();
        pipeline.on_data_ready();
    }
    assert_eq!(pipeline.handle_command(CMD_QUERY_OVERFLOW), vec![1]);
}

#[test]
fn queries_do_not_disturb_the_queue() {
    let (mut pipeline, _bus) = pipeline_with(vec![]);
    assert!(pipeline.push_sample(42));
    assert_eq!(pipeline.handle_command(CMD_QUERY_OVERFLOW), vec![0]);
    assert_eq!(pipeline.handle_command(0x05), Vec::<u8>::new());
    assert_eq!(pipeline.handle_command(CMD_READ_SAMPLE), vec![1, 0, 0, 0, 42]);
}
