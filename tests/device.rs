use clrays::buffer::{BufferError, HostBuffer, Transfer};
use clrays::pipeline::{entry_point, Action, KernelKind, Pipeline, PipelineKind};

#[test]
fn new_buffer_has_at_least_one_element() {
    let b = HostBuffer::new(0, 7i32);
    assert_eq!(b.get_slice(), &[7]);
    assert!(!b.needs_download());
    let b = HostBuffer::new(3, 1u8);
    assert_eq!(b.len(), 3);
    assert_eq!(b.get_slice(), &[1, 1, 1]);
}

#[test]
fn buffer_from_empty_data_is_an_allocation_error() {
    assert_eq!(HostBuffer::<i32>::from(vec![]).err(), Some(BufferError::EmptyData));
    let b = HostBuffer::from(vec![1, 2, 3]).ok().unwrap();
    assert_eq!(b.get_slice(), &[1, 2, 3]);
}

#[test]
fn upload_new_with_wrong_length_changes_nothing() {
    let mut b = HostBuffer::from(vec![1, 2, 3]).ok().unwrap();
    b.mark_dirty();
    assert_eq!(b.upload_new(&[9, 9]), Transfer::Skip);
    assert_eq!(b.get_slice(), &[1, 2, 3]);
    assert!(b.needs_download());
    assert_eq!(b.upload_new(&[9, 9, 9, 9]), Transfer::Skip);
    assert_eq!(b.get_slice(), &[1, 2, 3]);
}

#[test]
fn upload_new_with_matching_length_replaces_mirror() {
    let mut b = HostBuffer::from(vec![1, 2, 3]).ok().unwrap();
    assert_eq!(b.upload_new(&[4, 5, 6]), Transfer::Upload);
    assert_eq!(b.get_slice(), &[4, 5, 6]);
    assert!(!b.needs_download());
}

#[test]
fn download_takes_data_and_clears_dirty() {
    let mut b = HostBuffer::new(2, 0i32);
    b.mark_dirty();
    assert!(b.needs_download());
    b.downloaded(vec![8, 9]);
    assert_eq!(b.get_slice(), &[8, 9]);
    assert!(!b.needs_download());
}

/// Runs one frame with every action succeeding; the download brings `frame`.
fn run_frame(p: &mut Pipeline, frame: &[i32]) -> Vec<Action> {
    let mut seen = Vec::new();
    p.begin_frame();
    loop {
        let a = p.next_action();
        seen.push(a);
        match a {
            Action::Execute(_) => p.executed(),
            Action::Download => p.downloaded(frame.to_vec()),
            Action::Finish => return seen,
        }
    }
}

#[test]
fn three_stage_frames_run_each_kernel_once_in_order() {
    let mut p = Pipeline::new(PipelineKind::ThreeStage, 2);
    let want = vec![
        Action::Execute(KernelKind::Clear),
        Action::Execute(KernelKind::Accumulate),
        Action::Execute(KernelKind::Convert),
        Action::Download,
        Action::Finish,
    ];
    assert_eq!(run_frame(&mut p, &[1, 2]), want);
    assert_eq!(p.result(), &[1, 2]);
    assert_eq!(run_frame(&mut p, &[3, 4]), want);
    assert_eq!(p.result(), &[3, 4]);
}

#[test]
fn direct_frame_traces_then_downloads() {
    let mut p = Pipeline::new(PipelineKind::Direct, 3);
    assert_eq!(p.kind(), PipelineKind::Direct);
    assert_eq!(p.output_len(), 3);
    assert_eq!(
        run_frame(&mut p, &[5, 6, 7]),
        vec![Action::Execute(KernelKind::Trace), Action::Download, Action::Finish]
    );
    assert_eq!(p.result(), &[5, 6, 7]);
}

#[test]
fn result_is_downloaded_once_per_execution() {
    let mut p = Pipeline::new(PipelineKind::Direct, 1);
    assert_eq!(p.next_action(), Action::Finish);
    p.begin_frame();
    p.executed();
    assert_eq!(p.next_action(), Action::Download);
    p.downloaded(vec![42]);
    assert_eq!(p.next_action(), Action::Finish);
    assert_eq!(p.next_action(), Action::Finish);
    assert_eq!(p.result(), &[42]);
}

#[test]
fn failure_abandons_frame_and_keeps_output_dirty() {
    let mut p = Pipeline::new(PipelineKind::ThreeStage, 1);
    p.begin_frame();
    p.executed();
    p.fail();
    assert_eq!(p.next_action(), Action::Finish);
    p.begin_frame();
    p.executed();
    p.executed();
    p.executed();
    assert_eq!(p.next_action(), Action::Download);
    p.fail();
    assert_eq!(p.next_action(), Action::Download);
    assert_eq!(p.result(), &[0]);
}

#[test]
fn kernels_have_their_entry_points() {
    assert_eq!(entry_point(KernelKind::Trace), "raytracing");
    assert_eq!(entry_point(KernelKind::Clear), "clear");
    assert_eq!(entry_point(KernelKind::Accumulate), "raytracingAA");
    assert_eq!(entry_point(KernelKind::Convert), "image_from_floatmap");
}
