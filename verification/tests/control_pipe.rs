use usb_device::{
    ControlPipe, ControlState, Direction, Recipient, Request, RequestType, UsbError,
};

fn request(direction: Direction, length: u16) -> Request {
    Request {
        direction,
        request_type: RequestType::Standard,
        recipient: Recipient::Device,
        request: 6,
        value: 0x0100,
        index: 0,
        length,
    }
}

#[test]
fn new_pipe_is_idle() {
    let pipe = ControlPipe::new(16);
    assert_eq!(pipe.state(), ControlState::Idle);
    assert_eq!(pipe.request(), None);
    assert_eq!(pipe.capacity(), 16);
    assert!(pipe.data().is_empty());
    assert!(!pipe.waiting_for_response());
    assert!(!pipe.awaiting_in());
    assert!(!pipe.awaiting_out());
}

#[test]
fn setup_with_in_data_stage_waits_for_a_class() {
    let mut pipe = ControlPipe::new(16);
    let req = request(Direction::DeviceToHost, 8);
    pipe.setup_received(req);
    assert_eq!(pipe.state(), ControlState::DataStageIn);
    assert_eq!(pipe.request(), Some(req));
    assert!(pipe.awaiting_in());
    assert!(!pipe.awaiting_out());
    assert!(pipe.waiting_for_response());
}

#[test]
fn setup_with_out_data_stage_waits_for_the_data() {
    let mut pipe = ControlPipe::new(16);
    pipe.setup_received(request(Direction::HostToDevice, 4));
    assert_eq!(pipe.state(), ControlState::DataStageOut);
    assert!(!pipe.waiting_for_response());
    pipe.data_out_received(&[1, 2, 3, 4]);
    assert_eq!(pipe.state(), ControlState::DataStageOut);
    assert!(pipe.awaiting_out());
    assert!(!pipe.awaiting_in());
    assert_eq!(pipe.data(), &[1, 2, 3, 4]);
}

#[test]
fn setup_without_data_stage_is_offered_at_once() {
    let mut pipe = ControlPipe::new(16);
    pipe.setup_received(request(Direction::HostToDevice, 0));
    assert_eq!(pipe.state(), ControlState::SetupReceived);
    assert!(pipe.awaiting_out());
    pipe.setup_received(request(Direction::DeviceToHost, 0));
    assert_eq!(pipe.state(), ControlState::SetupReceived);
    assert!(pipe.awaiting_in());
}

#[test]
fn in_transfer_runs_to_complete() {
    let mut pipe = ControlPipe::new(16);
    pipe.setup_received(request(Direction::DeviceToHost, 8));
    assert_eq!(pipe.accept_in_with(&[10, 11, 12]), Ok(()));
    assert_eq!(pipe.state(), ControlState::StatusOut);
    assert_eq!(pipe.data(), &[10, 11, 12]);
    assert!(!pipe.waiting_for_response());
    pipe.status_stage_done();
    assert_eq!(pipe.state(), ControlState::Complete);
    assert_eq!(pipe.data(), &[10, 11, 12]);
}

#[test]
fn out_transfer_runs_to_complete() {
    let mut pipe = ControlPipe::new(16);
    pipe.setup_received(request(Direction::HostToDevice, 2));
    pipe.data_out_received(&[7, 8]);
    assert_eq!(pipe.accept_out(), Ok(()));
    assert_eq!(pipe.state(), ControlState::StatusIn);
    assert_eq!(pipe.data(), &[7, 8]);
    pipe.status_stage_done();
    assert_eq!(pipe.state(), ControlState::Complete);
}

#[test]
fn accepted_data_is_cut_to_the_requested_length() {
    let mut pipe = ControlPipe::new(16);
    pipe.setup_received(request(Direction::DeviceToHost, 4));
    assert_eq!(pipe.accept_in_with(&[1, 2, 3, 4, 5, 6, 7]), Ok(()));
    assert_eq!(pipe.data(), &[1, 2, 3, 4]);
}

#[test]
fn accepted_data_for_a_request_without_data_stage_is_empty() {
    let mut pipe = ControlPipe::new(16);
    pipe.setup_received(request(Direction::DeviceToHost, 0));
    assert_eq!(pipe.accept_in_with(&[1, 2, 3]), Ok(()));
    assert_eq!(pipe.state(), ControlState::StatusOut);
    assert!(pipe.data().is_empty());
}

#[test]
fn data_as_long_as_the_buffer_is_accepted() {
    let mut pipe = ControlPipe::new(4);
    pipe.setup_received(request(Direction::DeviceToHost, 64));
    assert_eq!(pipe.accept_in_with(&[9, 8, 7, 6]), Ok(()));
    assert_eq!(pipe.data(), &[9, 8, 7, 6]);
}

#[test]
fn data_longer_than_the_buffer_overflows_and_leaves_the_transfer_open() {
    let mut pipe = ControlPipe::new(4);
    let req = request(Direction::DeviceToHost, 64);
    pipe.setup_received(req);
    assert_eq!(pipe.accept_in_with(&[1, 2, 3, 4, 5]), Err(UsbError::BufferOverflow));
    assert_eq!(pipe.state(), ControlState::DataStageIn);
    assert_eq!(pipe.request(), Some(req));
    assert!(pipe.data().is_empty());
    assert!(pipe.awaiting_in());
    assert_eq!(pipe.accept_in_with(&[1, 2]), Ok(()));
    assert_eq!(pipe.data(), &[1, 2]);
}

#[test]
fn overflow_is_judged_before_the_cut() {
    let mut pipe = ControlPipe::new(4);
    pipe.setup_received(request(Direction::DeviceToHost, 2));
    assert_eq!(pipe.accept_in_with(&[1, 2, 3, 4, 5]), Err(UsbError::BufferOverflow));
    assert!(pipe.awaiting_in());
}

static REPORT: [u8; 6] = [0xa0, 0xa1, 0xa2, 0xa3, 0xa4, 0xa5];

#[test]
fn static_data_is_sent_without_a_copy() {
    let mut pipe = ControlPipe::new(8);
    pipe.setup_received(request(Direction::DeviceToHost, 4));
    assert_eq!(pipe.accept_in_static(&REPORT), Ok(()));
    assert_eq!(pipe.state(), ControlState::StatusOut);
    assert_eq!(pipe.data(), &REPORT[..4]);
    assert_eq!(pipe.data().as_ptr(), REPORT.as_ptr());
}

#[test]
fn static_data_longer_than_the_buffer_overflows() {
    let mut pipe = ControlPipe::new(5);
    pipe.setup_received(request(Direction::DeviceToHost, 64));
    assert_eq!(pipe.accept_in_static(&REPORT), Err(UsbError::BufferOverflow));
    assert_eq!(pipe.state(), ControlState::DataStageIn);
    assert!(pipe.data().is_empty());
}

#[test]
fn static_data_does_not_outlive_its_transfer() {
    let mut pipe = ControlPipe::new(8);
    pipe.setup_received(request(Direction::DeviceToHost, 6));
    assert_eq!(pipe.accept_in_static(&REPORT), Ok(()));
    pipe.setup_received(request(Direction::HostToDevice, 3));
    assert!(pipe.data().is_empty());
    pipe.data_out_received(&[1, 2, 3]);
    assert_eq!(pipe.data(), &[1, 2, 3]);
}

#[test]
fn callback_writes_into_the_buffer() {
    let mut pipe = ControlPipe::new(8);
    pipe.setup_received(request(Direction::DeviceToHost, 3));
    let r = pipe.accept_in(|buf: &mut [u8]| {
        assert_eq!(buf.len(), 8);
        buf[..5].copy_from_slice(&[5, 4, 3, 2, 1]);
        Ok(5)
    });
    assert_eq!(r, Ok(()));
    assert_eq!(pipe.state(), ControlState::StatusOut);
    assert_eq!(pipe.data(), &[5, 4, 3]);
}

#[test]
fn callback_error_is_returned_and_leaves_the_transfer_open() {
    let mut pipe = ControlPipe::new(8);
    pipe.setup_received(request(Direction::DeviceToHost, 3));
    let r = pipe.accept_in(|buf: &mut [u8]| {
        buf[0] = 0xff;
        Err(UsbError::InvalidAlternateSetting)
    });
    assert_eq!(r, Err(UsbError::InvalidAlternateSetting));
    assert_eq!(pipe.state(), ControlState::DataStageIn);
    assert!(pipe.data().is_empty());
    assert!(pipe.awaiting_in());
}

#[test]
fn callback_length_beyond_the_buffer_overflows() {
    let mut pipe = ControlPipe::new(8);
    pipe.setup_received(request(Direction::DeviceToHost, 3));
    let r = pipe.accept_in(|_buf: &mut [u8]| Ok(9));
    assert_eq!(r, Err(UsbError::BufferOverflow));
    assert_eq!(pipe.state(), ControlState::DataStageIn);
    assert!(pipe.data().is_empty());
    assert_eq!(pipe.accept_in(|_buf: &mut [u8]| Ok(8)), Ok(()));
    assert_eq!(pipe.data().len(), 3);
}

#[test]
fn reject_stalls() {
    let mut pipe = ControlPipe::new(8);
    let req = request(Direction::DeviceToHost, 3);
    pipe.setup_received(req);
    assert_eq!(pipe.reject(), Ok(()));
    assert_eq!(pipe.state(), ControlState::Stalled);
    assert_eq!(pipe.request(), Some(req));
    assert!(!pipe.waiting_for_response());
}

#[test]
fn out_data_longer_than_the_buffer_stalls() {
    let mut pipe = ControlPipe::new(4);
    pipe.setup_received(request(Direction::HostToDevice, 5));
    pipe.data_out_received(&[1, 2, 3, 4, 5]);
    assert_eq!(pipe.state(), ControlState::Stalled);
    assert!(pipe.data().is_empty());
}

#[test]
fn out_data_need_not_have_the_announced_length() {
    let mut pipe = ControlPipe::new(8);
    pipe.setup_received(request(Direction::HostToDevice, 2));
    pipe.data_out_received(&[1, 2, 3, 4, 5]);
    assert!(pipe.awaiting_out());
    assert_eq!(pipe.data(), &[1, 2, 3, 4, 5]);
    pipe.setup_received(request(Direction::HostToDevice, 6));
    pipe.data_out_received(&[]);
    assert!(pipe.awaiting_out());
    assert!(pipe.data().is_empty());
}

#[test]
fn events_out_of_order_stall() {
    let mut pipe = ControlPipe::new(8);
    pipe.status_stage_done();
    assert_eq!(pipe.state(), ControlState::Stalled);

    let mut pipe = ControlPipe::new(8);
    pipe.data_out_received(&[1]);
    assert_eq!(pipe.state(), ControlState::Stalled);

    pipe.setup_received(request(Direction::DeviceToHost, 4));
    pipe.data_out_received(&[1]);
    assert_eq!(pipe.state(), ControlState::Stalled);

    pipe.setup_received(request(Direction::DeviceToHost, 4));
    pipe.status_stage_done();
    assert_eq!(pipe.state(), ControlState::Stalled);

    pipe.setup_received(request(Direction::HostToDevice, 4));
    pipe.data_out_received(&[1]);
    pipe.data_out_received(&[2]);
    assert_eq!(pipe.state(), ControlState::Stalled);
    assert_eq!(pipe.data(), &[1]);

    pipe.setup_received(request(Direction::HostToDevice, 0));
    assert_eq!(pipe.accept_out(), Ok(()));
    pipe.status_stage_done();
    assert_eq!(pipe.state(), ControlState::Complete);
    pipe.status_stage_done();
    assert_eq!(pipe.state(), ControlState::Stalled);
}

#[test]
fn stalled_pipe_stays_stalled_until_setup() {
    let mut pipe = ControlPipe::new(8);
    pipe.setup_received(request(Direction::HostToDevice, 0));
    assert_eq!(pipe.reject(), Ok(()));
    pipe.status_stage_done();
    assert_eq!(pipe.state(), ControlState::Stalled);
    pipe.data_out_received(&[1, 2]);
    assert_eq!(pipe.state(), ControlState::Stalled);
    pipe.setup_received(request(Direction::HostToDevice, 0));
    assert_eq!(pipe.state(), ControlState::SetupReceived);
}

/// A pipe driven into each of its stages, with data in the buffer wherever
/// the stage allows it.
fn pipes_in_every_stage() -> Vec<ControlPipe> {
    let mut pipes = Vec::new();
    pipes.push(ControlPipe::new(8));

    let mut p = ControlPipe::new(8);
    p.setup_received(request(Direction::HostToDevice, 0));
    pipes.push(p);

    let mut p = ControlPipe::new(8);
    p.setup_received(request(Direction::DeviceToHost, 5));
    pipes.push(p);

    let mut p = ControlPipe::new(8);
    p.setup_received(request(Direction::HostToDevice, 5));
    pipes.push(p);

    let mut p = ControlPipe::new(8);
    p.setup_received(request(Direction::HostToDevice, 5));
    p.data_out_received(&[1, 2, 3, 4, 5]);
    pipes.push(p);

    let mut p = ControlPipe::new(8);
    p.setup_received(request(Direction::HostToDevice, 5));
    p.data_out_received(&[1, 2, 3, 4, 5]);
    p.accept_out().unwrap();
    pipes.push(p);

    let mut p = ControlPipe::new(8);
    p.setup_received(request(Direction::DeviceToHost, 5));
    p.accept_in_with(&[9, 9, 9]).unwrap();
    pipes.push(p);

    let mut p = ControlPipe::new(8);
    p.setup_received(request(Direction::DeviceToHost, 5));
    p.accept_in_static(&REPORT).unwrap();
    pipes.push(p);

    let mut p = ControlPipe::new(8);
    p.setup_received(request(Direction::DeviceToHost, 5));
    p.accept_in_with(&[9, 9, 9]).unwrap();
    p.status_stage_done();
    pipes.push(p);

    let mut p = ControlPipe::new(8);
    p.setup_received(request(Direction::HostToDevice, 5));
    p.data_out_received(&[1, 2, 3, 4, 5]);
    p.reject().unwrap();
    pipes.push(p);

    pipes
}

#[test]
fn setup_discards_the_transfer_in_flight() {
    let states: Vec<ControlState> = pipes_in_every_stage().iter().map(|p| p.state()).collect();
    assert_eq!(
        states,
        vec![
            ControlState::Idle,
            ControlState::SetupReceived,
            ControlState::DataStageIn,
            ControlState::DataStageOut,
            ControlState::DataStageOut,
            ControlState::StatusIn,
            ControlState::StatusOut,
            ControlState::StatusOut,
            ControlState::Complete,
            ControlState::Stalled,
        ]
    );
    let next = Request {
        direction: Direction::HostToDevice,
        request_type: RequestType::Vendor,
        recipient: Recipient::Endpoint,
        request: 0x42,
        value: 7,
        index: 0x81,
        length: 3,
    };
    for mut pipe in pipes_in_every_stage() {
        pipe.setup_received(next);
        assert_eq!(pipe.state(), ControlState::DataStageOut);
        assert_eq!(pipe.request(), Some(next));
        assert!(pipe.data().is_empty());
        assert_eq!(pipe.capacity(), 8);
        assert!(!pipe.waiting_for_response());
        pipe.data_out_received(&[0x11, 0x22]);
        assert!(pipe.awaiting_out());
        assert_eq!(pipe.data(), &[0x11, 0x22]);
    }
    let next = request(Direction::DeviceToHost, 2);
    for mut pipe in pipes_in_every_stage() {
        pipe.setup_received(next);
        assert_eq!(pipe.state(), ControlState::DataStageIn);
        assert_eq!(pipe.request(), Some(next));
        assert!(pipe.data().is_empty());
        assert!(pipe.awaiting_in());
    }
}

#[test]
fn pipe_without_buffer_takes_empty_data() {
    let mut pipe = ControlPipe::new(0);
    pipe.setup_received(request(Direction::DeviceToHost, 4));
    assert_eq!(pipe.accept_in_with(&[1]), Err(UsbError::BufferOverflow));
    assert_eq!(pipe.accept_in_with(&[]), Ok(()));
    assert_eq!(pipe.state(), ControlState::StatusOut);
    assert!(pipe.data().is_empty());
}
