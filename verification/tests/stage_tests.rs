use semseg::frame::Buffer;
use semseg::mask::ClassMask;
use semseg::stage::{SemSeg, StageState};
use semseg::{SegError, FRAME_BYTES, FRAME_HEIGHT, FRAME_PIXELS, FRAME_WIDTH};

fn ready_stage() -> SemSeg {
    let mut s = SemSeg::default();
    s.model_loaded();
    s
}

fn input_frame(pts: u64) -> Buffer {
    let mut data = Vec::with_capacity(FRAME_BYTES);
    for i in 0..FRAME_BYTES {
        data.push((i % 251) as u8);
    }
    Buffer { width: FRAME_WIDTH, height: FRAME_HEIGHT, pts, data }
}

fn placeholder(pts: u64) -> Buffer {
    Buffer {
        width: FRAME_WIDTH,
        height: FRAME_HEIGHT,
        pts,
        data: vec![0u8; FRAME_BYTES],
    }
}

fn uniform_mask(id: u8) -> ClassMask {
    ClassMask::from_ids(vec![id; FRAME_PIXELS]).unwrap()
}

#[test]
fn stage_starts_configured_then_ready() {
    let mut s = SemSeg::default();
    assert_eq!(s.state, StageState::Configured);
    s.model_loaded();
    assert_eq!(s.state, StageState::Ready);
}

#[test]
fn caps_name_one_input_and_one_output_pad() {
    let (ins, outs) = semseg::stage::caps_def();
    assert_eq!(ins.len(), 1);
    assert_eq!(outs.len(), 1);
    assert_eq!(ins[0].name, "rgb");
    assert_eq!(outs[0].name, "depth");
    assert_eq!(ins[0].format.width, FRAME_WIDTH);
    assert_eq!(ins[0].format.height, FRAME_HEIGHT);
    assert_eq!(outs[0].format.width, FRAME_WIDTH);
    assert_eq!(outs[0].format.height, FRAME_HEIGHT);
}

#[test]
fn mask_wrong_shape_rejected() {
    assert_eq!(
        ClassMask::from_ids(vec![0u8; FRAME_PIXELS - 1]).err(),
        Some(SegError::InferenceError)
    );
    assert_eq!(
        ClassMask::from_ids(vec![0u8; FRAME_PIXELS + 3]).err(),
        Some(SegError::InferenceError)
    );
    assert!(ClassMask::from_ids(vec![0u8; FRAME_PIXELS]).is_ok());
}

#[test]
fn process_output_dims_match_input() {
    let stage = ready_stage();
    let inbuf = vec![input_frame(42)];
    let mut outbuf = vec![placeholder(0)];
    let mask = uniform_mask(0);
    assert!(stage.process(&inbuf, &mut outbuf, &mask).is_ok());
    assert_eq!(outbuf[0].width, inbuf[0].width);
    assert_eq!(outbuf[0].height, inbuf[0].height);
    assert_eq!(outbuf[0].pts, inbuf[0].pts);
    assert_eq!(outbuf[0].data.len(), inbuf[0].data.len());
}

#[test]
fn process_all_car_mask_gives_car_color_everywhere() {
    let stage = ready_stage();
    let inbuf = vec![input_frame(1)];
    let mut outbuf = vec![placeholder(0)];
    let mask = uniform_mask(13);
    assert!(stage.process(&inbuf, &mut outbuf, &mask).is_ok());
    let plane = &outbuf[0].data;
    assert_eq!(plane.len(), FRAME_BYTES);
    for p in 0..FRAME_PIXELS {
        assert_eq!(plane[3 * p], 0);
        assert_eq!(plane[3 * p + 1], 0);
        assert_eq!(plane[3 * p + 2], 142);
    }
}

#[test]
fn process_small_block_scenario() {
    // A 2x2 block of class 1 (sidewalk) in a field of class 0 (road).
    let mut ids = vec![0u8; FRAME_PIXELS];
    let block = [(10usize, 20usize), (10, 21), (11, 20), (11, 21)];
    for &(y, x) in block.iter() {
        ids[y * FRAME_WIDTH as usize + x] = 1;
    }
    let mask = ClassMask::from_ids(ids).unwrap();

    let stage = ready_stage();
    let inbuf = vec![input_frame(9)];
    let mut outbuf = vec![placeholder(0)];
    assert!(stage.process(&inbuf, &mut outbuf, &mask).is_ok());

    let plane = &outbuf[0].data;
    for y in 0..FRAME_HEIGHT as usize {
        for x in 0..FRAME_WIDTH as usize {
            let p = y * FRAME_WIDTH as usize + x;
            let expected = if block.contains(&(y, x)) {
                (244u8, 35u8, 232u8) // sidewalk
            } else {
                (128u8, 64u8, 128u8) // road
            };
            assert_eq!((plane[3 * p], plane[3 * p + 1], plane[3 * p + 2]), expected);
        }
    }
}

#[test]
fn process_twice_is_byte_identical() {
    let stage = ready_stage();
    let inbuf = vec![input_frame(3)];
    let mask = uniform_mask(11);
    let mut out1 = vec![placeholder(0)];
    let mut out2 = vec![placeholder(0)];
    assert!(stage.process(&inbuf, &mut out1, &mask).is_ok());
    assert!(stage.process(&inbuf, &mut out2, &mask).is_ok());
    assert_eq!(out1[0].data, out2[0].data);
    assert_eq!(out1[0].pts, out2[0].pts);
}

#[test]
fn process_passes_extra_buffers_through() {
    let stage = ready_stage();
    let mut second = input_frame(8);
    second.data.reverse();
    let inbuf = vec![input_frame(7), second];
    let mut outbuf = vec![placeholder(0), placeholder(1), placeholder(2)];
    let mask = uniform_mask(0);
    assert!(stage.process(&inbuf, &mut outbuf, &mask).is_ok());
    // Slot 1 is byte-identical to input 1.
    assert_eq!(outbuf[1].data, inbuf[1].data);
    assert_eq!(outbuf[1].pts, inbuf[1].pts);
    assert_eq!(outbuf[1].width, inbuf[1].width);
    assert_eq!(outbuf[1].height, inbuf[1].height);
    // A slot past the inputs keeps its prior contents.
    assert_eq!(outbuf[2].pts, 2);
    assert_eq!(outbuf[2].data, vec![0u8; FRAME_BYTES]);
}

#[test]
fn process_rejects_wrong_dims_without_touching_output() {
    let stage = ready_stage();
    let wide = Buffer {
        width: FRAME_WIDTH + 1,
        height: FRAME_HEIGHT,
        pts: 4,
        data: vec![1u8; (FRAME_WIDTH as usize + 1) * FRAME_HEIGHT as usize * 3],
    };
    let inbuf = vec![wide];
    let mut outbuf = vec![placeholder(123)];
    let mask = uniform_mask(0);
    assert_eq!(
        stage.process(&inbuf, &mut outbuf, &mask),
        Err(SegError::FormatMismatch)
    );
    assert_eq!(outbuf[0].pts, 123);
    assert_eq!(outbuf[0].data, vec![0u8; FRAME_BYTES]);
}

#[test]
fn process_rejects_missing_output_slots() {
    let stage = ready_stage();
    let inbuf = vec![input_frame(1), input_frame(2)];
    let mut outbuf = vec![placeholder(0)];
    let mask = uniform_mask(0);
    assert_eq!(
        stage.process(&inbuf, &mut outbuf, &mask),
        Err(SegError::BufferContractViolation)
    );
    assert_eq!(outbuf[0].pts, 0);
}

#[test]
fn process_rejects_empty_input() {
    let stage = ready_stage();
    let inbuf: Vec<Buffer> = Vec::new();
    let mut outbuf = vec![placeholder(0)];
    let mask = uniform_mask(0);
    assert_eq!(
        stage.process(&inbuf, &mut outbuf, &mask),
        Err(SegError::BufferContractViolation)
    );
}
