use autoskip::app::SharedState;
use autoskip::genshin::{Window, WindowProps};
use autoskip::winapi_bindings::bindings::Rgb;
use autoskip::worker::{Worker, WorkerFault, WorkerReply, WorkerRequest};

const MARKER: Rgb = Rgb { r: 236, g: 229, b: 216 };
const WHITE: Rgb = Rgb { r: 255, g: 255, b: 255 };
const OTHER: Rgb = Rgb { r: 12, g: 34, b: 56 };

fn acting_on(hwnd: usize, width: i32, height: i32) -> SharedState {
    SharedState {
        window: Window::new(hwnd),
        props: Some(WindowProps::new(width, height)),
        send_message: true,
    }
}

/// A worker that has just been told to act on the window 77 of the
/// reference size.
fn probing() -> Worker {
    let mut worker = Worker::new();
    worker.step(WorkerReply::Shared(Some(acting_on(77, 1920, 1080))));
    worker
}

#[test]
fn worker_starts_by_reading_the_shared_state() {
    assert_eq!(Worker::new(), Worker::Polling);
    assert_eq!(Worker::new().request(), WorkerRequest::ReadShared);
}

#[test]
fn held_back_worker_sleeps_and_polls_again() {
    let mut worker = Worker::new();
    let shared = SharedState { send_message: false, ..acting_on(77, 1920, 1080) };
    worker.step(WorkerReply::Shared(Some(shared)));
    assert_eq!(worker, Worker::Sleeping);
    assert_eq!(worker.request(), WorkerRequest::Sleep(50));
    worker.step(WorkerReply::Slept);
    assert_eq!(worker.request(), WorkerRequest::ReadShared);
}

#[test]
fn worker_without_a_target_sleeps() {
    let mut worker = Worker::new();
    worker.step(WorkerReply::Shared(Some(SharedState {
        window: None,
        props: None,
        send_message: false,
    })));
    assert_eq!(worker.request(), WorkerRequest::Sleep(50));
}

#[test]
fn flag_without_a_target_is_read_again() {
    let mut worker = Worker::new();
    worker.step(WorkerReply::Shared(Some(SharedState {
        window: None,
        props: None,
        send_message: true,
    })));
    assert_eq!(worker.request(), WorkerRequest::ReadShared);
    worker.step(WorkerReply::Shared(Some(SharedState {
        window: Window::new(77),
        props: None,
        send_message: true,
    })));
    assert_eq!(worker.request(), WorkerRequest::ReadShared);
}

#[test]
fn poisoned_shared_state_ends_the_worker() {
    let mut worker = Worker::new();
    worker.step(WorkerReply::Shared(None));
    assert_eq!(worker.request(), WorkerRequest::Exit(WorkerFault::SharedState));
}

#[test]
fn probe_begins_at_the_playing_icon() {
    let worker = probing();
    assert_eq!(worker.request(), WorkerRequest::ReadPixel { hwnd: 77, x: 84, y: 46 });
}

#[test]
fn probe_reads_its_points_in_order() {
    let mut worker = Worker::new();
    worker.step(WorkerReply::Shared(Some(acting_on(77, 1366, 768))));
    assert_eq!(worker.request(), WorkerRequest::ReadPixel { hwnd: 77, x: 59, y: 32 });
    worker.step(WorkerReply::Pixel(Some(OTHER)));
    assert_eq!(worker.request(), WorkerRequest::ReadPixel { hwnd: 77, x: 853, y: 497 });
    worker.step(WorkerReply::Pixel(Some(OTHER)));
    assert_eq!(worker.request(), WorkerRequest::ReadPixel { hwnd: 77, x: 925, y: 574 });
    worker.step(WorkerReply::Pixel(Some(OTHER)));
    assert_eq!(worker.request(), WorkerRequest::ReadPixel { hwnd: 77, x: 925, y: 561 });
    worker.step(WorkerReply::Pixel(Some(OTHER)));
    assert_eq!(worker.request(), WorkerRequest::Sleep(50));
}

#[test]
fn choiceless_dialog_gets_one_space_stroke() {
    let mut worker = probing();
    worker.step(WorkerReply::Pixel(Some(MARKER)));
    let window = Window::new(77).unwrap();
    assert_eq!(worker.request(), WorkerRequest::Perform(window.click_space()));
    match worker.request() {
        WorkerRequest::Perform(gesture) => {
            assert_eq!(gesture.pointer, None);
            assert_eq!(gesture.press.hwnd, 77);
            assert_eq!(gesture.press.msg, 0x0100);
            assert_eq!(gesture.press.w_param, 0x20);
            assert_eq!(gesture.release.msg, 0x0100);
            assert_eq!(gesture.release.w_param, 0x20);
            assert_eq!(gesture.release.l_param, 0x0020_0001);
            assert!(gesture.hold_millis >= 50);
        }
        other => panic!("no gesture: {:?}", other),
    }
    worker.step(WorkerReply::Performed(true));
    assert_eq!(worker.request(), WorkerRequest::ReadShared);
}

#[test]
fn choice_dialog_gets_one_click_in_the_dialogue_area() {
    for pixels in [vec![OTHER, OTHER, WHITE], vec![OTHER, OTHER, OTHER, WHITE]] {
        let mut worker = probing();
        for pixel in pixels {
            worker.step(WorkerReply::Pixel(Some(pixel)));
        }
        match worker.request() {
            WorkerRequest::Perform(gesture) => {
                let p = gesture.pointer.unwrap();
                assert!(1300 <= p.x && p.x <= 1700);
                assert!(790 <= p.y && p.y <= 800);
                assert_eq!(gesture, Window::new(77).unwrap().click_at(p.x, p.y));
                assert_eq!(gesture.press.msg, 0x0201);
                assert_eq!(gesture.release.msg, 0x0202);
                assert_eq!(gesture.press.l_param, (p.y as isize) * 65536 + p.x as isize);
                assert_eq!(gesture.release.l_param, gesture.press.l_param);
                assert!(gesture.hold_millis >= 50);
            }
            other => panic!("no gesture: {:?}", other),
        }
        worker.step(WorkerReply::Performed(true));
        assert_eq!(worker.request(), WorkerRequest::ReadShared);
    }
}

#[test]
fn loading_screen_gets_nothing() {
    let mut worker = probing();
    worker.step(WorkerReply::Pixel(Some(OTHER)));
    worker.step(WorkerReply::Pixel(Some(WHITE)));
    assert_eq!(worker.request(), WorkerRequest::Sleep(50));
    worker.step(WorkerReply::Slept);
    assert_eq!(worker.request(), WorkerRequest::ReadShared);
}

#[test]
fn unreadable_pixel_ends_the_worker() {
    let mut worker = probing();
    worker.step(WorkerReply::Pixel(None));
    assert_eq!(worker.request(), WorkerRequest::Exit(WorkerFault::PixelRead));

    let mut worker = probing();
    worker.step(WorkerReply::Pixel(Some(OTHER)));
    worker.step(WorkerReply::Pixel(Some(OTHER)));
    worker.step(WorkerReply::Pixel(None));
    assert_eq!(worker.request(), WorkerRequest::Exit(WorkerFault::PixelRead));
}

#[test]
fn undelivered_input_ends_the_worker() {
    let mut worker = probing();
    worker.step(WorkerReply::Pixel(Some(MARKER)));
    worker.step(WorkerReply::Performed(false));
    assert_eq!(worker.request(), WorkerRequest::Exit(WorkerFault::Input));
}

#[test]
fn click_into_an_empty_area_ends_the_worker() {
    let mut worker = Worker::new();
    worker.step(WorkerReply::Shared(Some(acting_on(77, -1920, -1080))));
    worker.step(WorkerReply::Pixel(Some(OTHER)));
    worker.step(WorkerReply::Pixel(Some(OTHER)));
    worker.step(WorkerReply::Pixel(Some(WHITE)));
    assert_eq!(worker.request(), WorkerRequest::Exit(WorkerFault::EmptyDialogueArea));
}

#[test]
fn space_stroke_needs_no_dialogue_area() {
    let mut worker = Worker::new();
    worker.step(WorkerReply::Shared(Some(acting_on(77, -1920, -1080))));
    worker.step(WorkerReply::Pixel(Some(MARKER)));
    assert_eq!(
        worker.request(),
        WorkerRequest::Perform(Window::new(77).unwrap().click_space())
    );
}

#[test]
fn fault_is_final() {
    let mut worker = probing();
    worker.step(WorkerReply::Pixel(None));
    let failed = worker;
    for reply in [
        WorkerReply::Shared(Some(acting_on(77, 1920, 1080))),
        WorkerReply::Slept,
        WorkerReply::Pixel(Some(MARKER)),
        WorkerReply::Performed(true),
    ] {
        worker.step(reply);
        assert_eq!(worker, failed);
    }
}

#[test]
fn answer_to_another_request_leaves_the_worker() {
    let mut worker = Worker::new();
    for reply in [
        WorkerReply::Slept,
        WorkerReply::Pixel(Some(MARKER)),
        WorkerReply::Performed(true),
    ] {
        worker.step(reply);
        assert_eq!(worker, Worker::Polling);
    }
    let mut worker = probing();
    let sampling = worker;
    for reply in [
        WorkerReply::Slept,
        WorkerReply::Performed(false),
        WorkerReply::Shared(Some(acting_on(78, 1, 1))),
    ] {
        worker.step(reply);
        assert_eq!(worker, sampling);
    }
}

#[test]
fn every_worker_fault_has_its_message() {
    assert_eq!(
        WorkerFault::PixelRead.describe(),
        "Error reading a pixel of the target window"
    );
    assert_eq!(WorkerFault::Input.describe(), "Error sending input to the target window");
    assert_eq!(WorkerFault::SharedState.describe(), "Error when locking mutex");
    assert_eq!(
        WorkerFault::EmptyDialogueArea.describe(),
        "The dialogue area of the target window is empty"
    );
}
