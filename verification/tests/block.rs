use devices::block::config::{build_config_space, copy_config, CONFIG_SIZE};
use devices::block::device::{host_seg_max, BlockAsync, ResetAction, ResetEvent, TYPE_BLOCK};
use devices::block::error::{
    ExecuteError, OtherError, VIRTIO_BLK_S_IOERR, VIRTIO_BLK_S_OK, VIRTIO_BLK_S_UNSUPP,
};
use devices::block::process::{
    request_status, used_length, Process, ProcessAction, ProcessEvent,
};
use devices::block::request::{
    check_range, DiskState, Request, RequestAction, RequestEvent, VirtioBlkReqHeader,
    VIRTIO_BLK_T_DISCARD, VIRTIO_BLK_T_FLUSH, VIRTIO_BLK_T_IN, VIRTIO_BLK_T_OUT,
    VIRTIO_BLK_T_WRITE_ZEROES,
};
use devices::block::worker::{
    handle_queue, process_one_request_task, run_worker, wait_kill, worker_ends, CompletionAction,
    FlushTimer, FlushTimerAction, FlushTimerEvent, KillAction, KillEvent, QueueAction, QueueEvent,
    WorkerEvent,
};
use devices::queue::Queue;

/// A device whose handles are plain numbers and names.
type Device = BlockAsync<u32, &'static str, &'static str, u8>;

const BASE_FEATURES: u64 = 1 << 32;
const IOV_MAX: usize = 1024;

fn device(len: u64, read_only: bool, sparse: bool, block_size: u32) -> Device {
    match Device::new(
        BASE_FEATURES,
        "disk_image",
        Ok(len),
        read_only,
        sparse,
        block_size,
        None,
        IOV_MAX,
    ) {
        Ok(device) => device,
        Err(errno) => panic!("errno {}", errno),
    }
}

fn header(req_type: u32, sector: u64) -> [u8; 16] {
    let mut bytes = [0u8; 16];
    bytes[0..4].copy_from_slice(&req_type.to_le_bytes());
    bytes[8..16].copy_from_slice(&sector.to_le_bytes());
    bytes
}

fn segment(sector: u64, num_sectors: u32, flags: u32) -> [u8; 16] {
    let mut bytes = [0u8; 16];
    bytes[0..8].copy_from_slice(&sector.to_le_bytes());
    bytes[8..12].copy_from_slice(&num_sectors.to_le_bytes());
    bytes[12..16].copy_from_slice(&flags.to_le_bytes());
    bytes
}

fn writable(disk_size: u64) -> DiskState {
    DiskState { disk_size, read_only: false, sparse: true }
}

#[test]
fn read_size() {
    let b = device(0x1000, true, false, 512);
    let mut num_sectors = [0u8; 4];
    b.read_config(0, &mut num_sectors);
    // size is 0x1000, so num_sectors is 8 (4096/512).
    assert_eq!([0x08, 0x00, 0x00, 0x00], num_sectors);
    let mut msw_sectors = [0u8; 4];
    b.read_config(4, &mut msw_sectors);
    // size is 0x1000, so msw_sectors is 0.
    assert_eq!([0x00, 0x00, 0x00, 0x00], msw_sectors);
}

#[test]
fn read_block_size() {
    let b = device(0x1000, true, false, 4096);
    let mut blk_size = [0u8; 4];
    b.read_config(20, &mut blk_size);
    // blk_size should be 4096 (0x1000).
    assert_eq!([0x00, 0x10, 0x00, 0x00], blk_size);
}

#[test]
fn read_features() {
    // read-write block device
    {
        let b = device(0, false, true, 512);
        // writable device should set VIRTIO_BLK_F_FLUSH + VIRTIO_BLK_F_DISCARD
        // + VIRTIO_BLK_F_WRITE_ZEROES + VIRTIO_F_VERSION_1 + VIRTIO_BLK_F_BLK_SIZE
        // + VIRTIO_BLK_F_SEG_MAX + VIRTIO_BLK_F_MQ
        assert_eq!(0x100007244, b.features());
    }

    // read-write block device, non-sparse
    {
        let b = device(0, false, false, 512);
        // read-only device should set VIRTIO_BLK_F_FLUSH and VIRTIO_BLK_F_RO
        // + VIRTIO_F_VERSION_1 + VIRTIO_BLK_F_BLK_SIZE + VIRTIO_BLK_F_SEG_MAX
        // + VIRTIO_BLK_F_MQ
        assert_eq!(0x100005244, b.features());
    }

    // read-only block device
    {
        let b = device(0, true, true, 512);
        // read-only device should set VIRTIO_BLK_F_FLUSH and VIRTIO_BLK_F_RO
        // + VIRTIO_F_VERSION_1 + VIRTIO_BLK_F_BLK_SIZE + VIRTIO_BLK_F_SEG_MAX
        // + VIRTIO_BLK_F_MQ
        assert_eq!(0x100001264, b.features());
    }
}

#[test]
fn read_last_sector() {
    let disk_size = 0x1000;
    let mut flush_timer_armed = false;
    let disk_state = DiskState { disk_size, read_only: false, sparse: true };

    // The request header is readable; one sector of data and the status are writable.
    let (process, action) = Process::process_one_request(Ok(16), Ok(512 + 1), &disk_state);
    assert_eq!(action, ProcessAction::ReadHeader);
    let mut process = process.unwrap();

    // Disk is 8 sectors long, so this is the last valid sector.
    let req_hdr = header(VIRTIO_BLK_T_IN, 7);
    let action = process.step(ProcessEvent::HeaderRead(Ok(req_hdr)), &mut flush_timer_armed);
    assert_eq!(
        action,
        ProcessAction::Execute(RequestAction::ReadDisk { data_len: 512, offset: 7 * 512 })
    );
    let action = process.step(
        ProcessEvent::Executed(RequestEvent::DiskRead(Ok(()))),
        &mut flush_timer_armed,
    );
    assert_eq!(action, ProcessAction::WriteStatus { offset: 512, status: VIRTIO_BLK_S_OK });
    let action = process.step(ProcessEvent::StatusWritten(Ok(())), &mut flush_timer_armed);
    assert_eq!(action, ProcessAction::Done(Ok(513)));
    assert!(!flush_timer_armed);
}

#[test]
fn read_beyond_last_sector() {
    let disk_size = 0x1000;
    let mut flush_timer_armed = false;
    let disk_state = DiskState { disk_size, read_only: false, sparse: true };

    // Two sectors of data, which overlap the end of the disk.
    let (process, action) = Process::process_one_request(Ok(16), Ok(512 * 2 + 1), &disk_state);
    assert_eq!(action, ProcessAction::ReadHeader);
    let mut process = process.unwrap();

    // Disk is 8 sectors long, so this is the last valid sector.
    let req_hdr = header(VIRTIO_BLK_T_IN, 7);
    let action = process.step(ProcessEvent::HeaderRead(Ok(req_hdr)), &mut flush_timer_armed);
    assert_eq!(
        action,
        ProcessAction::WriteStatus { offset: 512 * 2, status: VIRTIO_BLK_S_IOERR }
    );
    let action = process.step(ProcessEvent::StatusWritten(Ok(())), &mut flush_timer_armed);
    assert_eq!(action, ProcessAction::Done(Ok(1025)));
}

#[test]
fn headers_are_little_endian() {
    let mut bytes = header(0x0403_0201, 0x0807_0605_0403_0201);
    bytes[4] = 5;
    assert_eq!(
        VirtioBlkReqHeader::from_bytes(&bytes),
        VirtioBlkReqHeader {
            req_type: 0x0403_0201,
            reserved: 5,
            sector: 0x0807_0605_0403_0201,
        }
    );
}

#[test]
fn ranges_are_checked() {
    assert_eq!(check_range(0, 512, 512), Ok(()));
    assert_eq!(check_range(512, 0, 512), Ok(()));
    assert_eq!(check_range(1, 512, 512), Err(ExecuteError::OutOfRange));
    assert_eq!(check_range(u64::MAX, 1, u64::MAX), Err(ExecuteError::OutOfRange));
    assert_eq!(check_range(u64::MAX, 0, u64::MAX), Ok(()));
}

#[test]
fn broken_chains_are_refused() {
    let disk = writable(0x1000);
    let (process, action) =
        Process::process_one_request(Err("r".to_string()), Err("w".to_string()), &disk);
    assert!(process.is_none());
    assert_eq!(action, ProcessAction::Done(Err(ExecuteError::Descriptor("r".to_string()))));
    let (_, action) = Process::process_one_request(Ok(16), Err("w".to_string()), &disk);
    assert_eq!(action, ProcessAction::Done(Err(ExecuteError::Descriptor("w".to_string()))));
    let (_, action) = Process::process_one_request(Ok(16), Ok(0), &disk);
    assert_eq!(action, ProcessAction::Done(Err(ExecuteError::MissingStatus)));

    let (process, _) = Process::process_one_request(Ok(3), Ok(1), &disk);
    let mut process = process.unwrap();
    let mut armed = false;
    assert_eq!(
        process.step(ProcessEvent::HeaderRead(Err("short".to_string())), &mut armed),
        ProcessAction::WriteStatus { offset: 0, status: VIRTIO_BLK_S_IOERR }
    );
    assert_eq!(
        process.step(ProcessEvent::StatusWritten(Err("gone".to_string())), &mut armed),
        ProcessAction::Done(Err(ExecuteError::WriteStatus("gone".to_string())))
    );
}

#[test]
fn write_arms_flush_timer() {
    let disk = writable(0x1000);
    let mut armed = false;
    let (mut request, action) =
        Request::execute_request(Ok(header(VIRTIO_BLK_T_OUT, 1)), 1024, 0, &disk);
    assert_eq!(action, RequestAction::WriteDisk { data_len: 1024, offset: 512 });
    assert_eq!(
        request.step(RequestEvent::DiskWritten(Ok(())), &mut armed),
        RequestAction::QueueFlushTimer
    );
    assert_eq!(
        request.step(RequestEvent::FlushTimerQueued(false), &mut armed),
        RequestAction::Done(Ok(()))
    );
    assert!(!armed);

    let (mut request, _) =
        Request::execute_request(Ok(header(VIRTIO_BLK_T_OUT, 1)), 1024, 0, &disk);
    request.step(RequestEvent::DiskWritten(Ok(())), &mut armed);
    assert_eq!(
        request.step(RequestEvent::FlushTimerQueued(true), &mut armed),
        RequestAction::Done(Ok(()))
    );
    assert!(armed);

    // The timer is armed already.
    let (mut request, _) =
        Request::execute_request(Ok(header(VIRTIO_BLK_T_OUT, 1)), 1024, 0, &disk);
    assert_eq!(
        request.step(RequestEvent::DiskWritten(Ok(())), &mut armed),
        RequestAction::Done(Ok(()))
    );
    assert!(armed);
}

#[test]
fn empty_requests_do_nothing() {
    let disk = writable(0);
    // Sectors are not looked at where there is no data.
    for req_type in [VIRTIO_BLK_T_IN, VIRTIO_BLK_T_OUT] {
        let (_, action) = Request::execute_request(Ok(header(req_type, 99)), 0, 0, &disk);
        assert_eq!(action, RequestAction::Done(Ok(())));
    }
    for req_type in [VIRTIO_BLK_T_DISCARD, VIRTIO_BLK_T_WRITE_ZEROES] {
        let (_, action) = Request::execute_request(Ok(header(req_type, 99)), 15, 0, &disk);
        assert_eq!(action, RequestAction::Done(Ok(())));
    }
}

#[test]
fn sectors_that_cannot_be_counted_are_out_of_range() {
    let disk = DiskState { disk_size: u64::MAX, read_only: false, sparse: true };
    let begin = |req_type: u32, sector: u64| {
        Request::execute_request(Ok(header(req_type, sector)), 512, 512, &disk).1
    };
    for req_type in [VIRTIO_BLK_T_IN, VIRTIO_BLK_T_OUT] {
        for sector in [1 << 55, (1 << 55) + 2, u64::MAX] {
            assert_eq!(
                begin(req_type, sector),
                RequestAction::Done(Err(ExecuteError::OutOfRange))
            );
        }
    }
    let sector = (1 << 55) - 2;
    assert_eq!(
        begin(VIRTIO_BLK_T_IN, sector),
        RequestAction::ReadDisk { data_len: 512, offset: sector * 512 }
    );

    let mut armed = false;
    let (mut request, _) =
        Request::execute_request(Ok(header(VIRTIO_BLK_T_WRITE_ZEROES, 0)), 16, 0, &disk);
    assert_eq!(
        request.step(RequestEvent::SegmentRead(Ok(segment(1 << 55, 1, 0))), &mut armed),
        RequestAction::Done(Err(ExecuteError::OutOfRange))
    );

    // Nothing is looked up where there is no data.
    let (_, action) = Request::execute_request(Ok(header(VIRTIO_BLK_T_IN, 1 << 55)), 0, 0, &disk);
    assert_eq!(action, RequestAction::Done(Ok(())));
}

#[test]
fn write_zeroes_goes_through_segments() {
    let disk = DiskState { disk_size: 0x1000, read_only: false, sparse: false };
    let mut armed = false;
    let (mut request, action) =
        Request::execute_request(Ok(header(VIRTIO_BLK_T_WRITE_ZEROES, 0)), 40, 0, &disk);
    assert_eq!(action, RequestAction::ReadSegment);
    assert_eq!(
        request.step(RequestEvent::SegmentRead(Ok(segment(1, 2, 1))), &mut armed),
        RequestAction::WriteZeroes { offset: 512, length: 1024 }
    );
    assert_eq!(
        request.step(RequestEvent::ZeroesWritten(Ok(())), &mut armed),
        RequestAction::ReadSegment
    );
    assert_eq!(
        request.step(RequestEvent::SegmentRead(Ok(segment(7, 1, 0))), &mut armed),
        RequestAction::WriteZeroes { offset: 7 * 512, length: 512 }
    );
    assert_eq!(
        request.step(RequestEvent::ZeroesWritten(Ok(())), &mut armed),
        RequestAction::Done(Ok(()))
    );
    assert!(!armed);
}

#[test]
fn discard_ignores_failures() {
    let disk = writable(0x1000);
    let mut armed = false;
    let (mut request, action) =
        Request::execute_request(Ok(header(VIRTIO_BLK_T_DISCARD, 0)), 32, 0, &disk);
    assert_eq!(action, RequestAction::ReadSegment);
    assert_eq!(
        request.step(RequestEvent::SegmentRead(Ok(segment(0, 8, 0))), &mut armed),
        RequestAction::PunchHole { offset: 0, length: 0x1000 }
    );
    assert_eq!(
        request.step(RequestEvent::HolePunched(Err("no".to_string())), &mut armed),
        RequestAction::ReadSegment
    );
    // Discard knows no flags.
    assert_eq!(
        request.step(RequestEvent::SegmentRead(Ok(segment(3, 1, 1))), &mut armed),
        RequestAction::Done(Err(ExecuteError::DiscardWriteZeroes {
            ioerr: None,
            sector: 3,
            num_sectors: 1,
            flags: 1,
        }))
    );

    let dense = DiskState { disk_size: 0x1000, read_only: false, sparse: false };
    let (_, action) =
        Request::execute_request(Ok(header(VIRTIO_BLK_T_DISCARD, 0)), 32, 0, &dense);
    assert_eq!(action, RequestAction::Done(Ok(())));
}

#[test]
fn failures_of_the_disk_are_told() {
    let disk = writable(0x1000);
    let mut armed = false;
    let begin = |req_type: u32, readable: usize, writable: usize| {
        Request::execute_request(Ok(header(req_type, 2)), readable, writable, &disk).0
    };
    let failure = || Err("e".to_string());

    let mut request = begin(VIRTIO_BLK_T_IN, 0, 512);
    assert_eq!(
        request.step(RequestEvent::DiskRead(failure()), &mut armed),
        RequestAction::Done(Err(ExecuteError::ReadIo {
            length: 512,
            sector: 2,
            desc_error: "e".to_string(),
        }))
    );
    let mut request = begin(VIRTIO_BLK_T_OUT, 1024, 0);
    assert_eq!(
        request.step(RequestEvent::DiskWritten(failure()), &mut armed),
        RequestAction::Done(Err(ExecuteError::WriteIo {
            length: 1024,
            sector: 2,
            desc_error: "e".to_string(),
        }))
    );
    let mut request = begin(VIRTIO_BLK_T_FLUSH, 0, 0);
    assert_eq!(
        request.step(RequestEvent::Fsynced(failure()), &mut armed),
        RequestAction::Done(Err(ExecuteError::Flush("e".to_string())))
    );
    let mut request = begin(VIRTIO_BLK_T_FLUSH, 0, 0);
    assert_eq!(
        request.step(RequestEvent::Fsynced(Ok(())), &mut armed),
        RequestAction::Done(Ok(()))
    );
    let mut request = begin(VIRTIO_BLK_T_WRITE_ZEROES, 32, 0);
    assert_eq!(
        request.step(RequestEvent::SegmentRead(Err("r".to_string())), &mut armed),
        RequestAction::Done(Err(ExecuteError::Read("r".to_string())))
    );
    let mut request = begin(VIRTIO_BLK_T_WRITE_ZEROES, 32, 0);
    request.step(RequestEvent::SegmentRead(Ok(segment(1, 1, 1))), &mut armed);
    assert_eq!(
        request.step(RequestEvent::ZeroesWritten(failure()), &mut armed),
        RequestAction::Done(Err(ExecuteError::DiscardWriteZeroes {
            ioerr: Some("e".to_string()),
            sector: 1,
            num_sectors: 1,
            flags: 1,
        }))
    );
    let mut request = begin(VIRTIO_BLK_T_WRITE_ZEROES, 32, 0);
    assert_eq!(
        request.step(RequestEvent::SegmentRead(Ok(segment(8, 1, 0))), &mut armed),
        RequestAction::Done(Err(ExecuteError::OutOfRange))
    );
    assert!(!armed);
}

#[test]
fn read_only_disk_refuses_all_but_reads() {
    let disk = DiskState { disk_size: 0x1000, read_only: true, sparse: true };
    for req_type in [VIRTIO_BLK_T_OUT, VIRTIO_BLK_T_FLUSH, VIRTIO_BLK_T_DISCARD, 77] {
        let (_, action) = Request::execute_request(Ok(header(req_type, 0)), 512, 0, &disk);
        assert_eq!(
            action,
            RequestAction::Done(Err(ExecuteError::ReadOnly { request_type: req_type }))
        );
    }
    let (_, action) = Request::execute_request(Ok(header(VIRTIO_BLK_T_IN, 0)), 0, 512, &disk);
    assert_eq!(action, RequestAction::ReadDisk { data_len: 512, offset: 0 });
}

#[test]
fn unknown_types_are_unsupported() {
    let (_, action) = Request::execute_request(Ok(header(77, 0)), 0, 0, &writable(0));
    let outcome = match action {
        RequestAction::Done(outcome) => outcome,
        _ => panic!("not done"),
    };
    assert_eq!(outcome, Err(ExecuteError::Unsupported(77)));
    assert_eq!(request_status(&outcome), VIRTIO_BLK_S_UNSUPP);
    assert_eq!(request_status(&Ok(())), VIRTIO_BLK_S_OK);
    assert_eq!(request_status(&Err(ExecuteError::OutOfRange)), VIRTIO_BLK_S_IOERR);
}

#[test]
fn execute_errors_are_described() {
    let e = || "e".to_string();
    let cases: Vec<(ExecuteError, &str)> = vec![
        (ExecuteError::CreatingMessageReceiver(e()), "couldn't create a message receiver: e"),
        (ExecuteError::Descriptor(e()), "virtio descriptor error: e"),
        (ExecuteError::Read(e()), "failed to read message: e"),
        (ExecuteError::ReceivingCommand(e()), "failed to read command message: e"),
        (ExecuteError::SendingResponse(e()), "failed to send command response: e"),
        (ExecuteError::WriteStatus(e()), "failed to write request status: e"),
        (ExecuteError::Flush(e()), "failed to flush: e"),
        (
            ExecuteError::ReadIo { length: 512, sector: 7, desc_error: e() },
            "io error reading 512 bytes from sector 7: e",
        ),
        (
            ExecuteError::WriteIo { length: 1024, sector: 8, desc_error: e() },
            "io error writing 1024 bytes to sector 8: e",
        ),
        (
            ExecuteError::DiscardWriteZeroes {
                ioerr: Some(e()),
                sector: 1,
                num_sectors: 2,
                flags: 3,
            },
            "failed to perform discard or write zeroes; sector=1 num_sectors=2 flags=3; e",
        ),
        (
            ExecuteError::DiscardWriteZeroes { ioerr: None, sector: 1, num_sectors: 2, flags: 3 },
            "failed to perform discard or write zeroes; sector=1 num_sectors=2 flags=3",
        ),
        (ExecuteError::ReadOnly { request_type: 4 }, "read only; request_type=4"),
        (ExecuteError::OutOfRange, "out of range"),
        (
            ExecuteError::MissingStatus,
            "not enough space in descriptor chain to write status",
        ),
        (ExecuteError::Unsupported(9), "unsupported (9)"),
    ];
    for (error, text) in cases {
        assert_eq!(error.message(), text);
        let unsupported = matches!(error, ExecuteError::Unsupported(_));
        assert_eq!(
            error.status(),
            if unsupported { VIRTIO_BLK_S_UNSUPP } else { VIRTIO_BLK_S_IOERR }
        );
    }
}

#[test]
fn other_errors_are_described() {
    let e = || "e".to_string();
    let cases: Vec<(OtherError, &str)> = vec![
        (OtherError::AsyncKillCreate(e()), "couldn't create an async kill event fd: e"),
        (OtherError::AsyncResampleCreate(e()), "couldn't create an async resample event: e"),
        (OtherError::AsyncTimerCreate(e()), "couldn't create an async timer: e"),
        (OtherError::CloneResampleEvent(e()), "couldn't clone the resample event: e"),
        (OtherError::FsyncDisk(e()), "failed to fsync the disk: e"),
        (OtherError::ReadResampleEvent(e()), "couldn't read the resample event: e"),
        (OtherError::TimerCreate(e()), "couldn't create a timer: e"),
        (OtherError::TimerReset(e()), "couldn't reset the timer: e"),
    ];
    for (error, text) in cases {
        assert_eq!(error.message(), text);
    }
}

#[test]
fn used_chains() {
    assert_eq!(used_length(&Ok(513)), 513);
    assert_eq!(used_length(&Ok(0x1_0000_0005)), 5);
    assert_eq!(used_length(&Err(ExecuteError::MissingStatus)), 0);
    assert_eq!(
        process_one_request_task(6, &Ok(513)),
        [
            CompletionAction::AddUsed { index: 6, len: 513 },
            CompletionAction::TriggerInterrupt,
            CompletionAction::UpdateIntRequired,
        ]
    );
}

#[test]
fn queue_task_loops() {
    assert_eq!(handle_queue::<u8>(QueueEvent::Started), QueueAction::Pop);
    assert_eq!(handle_queue(QueueEvent::Popped(Some(5u8))), QueueAction::QueueTask(5));
    assert_eq!(handle_queue::<u8>(QueueEvent::Popped(None)), QueueAction::WaitKick);
    assert_eq!(handle_queue::<u8>(QueueEvent::Kicked(Ok(1))), QueueAction::Pop);
    assert_eq!(handle_queue::<u8>(QueueEvent::Kicked(Err("e".to_string()))), QueueAction::Pop);
    assert_eq!(handle_queue::<u8>(QueueEvent::Queued(Ok(()))), QueueAction::Pop);
    assert_eq!(handle_queue::<u8>(QueueEvent::Queued(Err("e".to_string()))), QueueAction::Stop);
}

#[test]
fn flush_timer_runs_once() {
    let mut armed = true;
    let (mut timer, action) = FlushTimer::flush_timer();
    assert_eq!(action, FlushTimerAction::CreateTimer);
    assert_eq!(
        timer.flush_timer_task(FlushTimerEvent::Created(Ok(())), &mut armed),
        FlushTimerAction::ResetTimer(60)
    );
    assert_eq!(
        timer.flush_timer_task(FlushTimerEvent::Started(Ok(())), &mut armed),
        FlushTimerAction::ConvertTimer
    );
    assert_eq!(
        timer.flush_timer_task(FlushTimerEvent::Converted(Ok(())), &mut armed),
        FlushTimerAction::Wait
    );
    assert_eq!(
        timer.flush_timer_task(FlushTimerEvent::Fired(Err("e".to_string())), &mut armed),
        FlushTimerAction::Fsync
    );
    assert!(armed);
    assert_eq!(
        timer.flush_timer_task(FlushTimerEvent::Fsynced(Ok(())), &mut armed),
        FlushTimerAction::Done(Ok(()))
    );
    assert!(!armed);
}

#[test]
fn flush_timer_failures_disarm_it() {
    let e = || "e".to_string();
    let cases: Vec<(FlushTimer, FlushTimerEvent, OtherError)> = vec![
        (FlushTimer::Creating, FlushTimerEvent::Created(Err(e())), OtherError::TimerCreate(e())),
        (FlushTimer::Starting, FlushTimerEvent::Started(Err(e())), OtherError::TimerReset(e())),
        (
            FlushTimer::Converting,
            FlushTimerEvent::Converted(Err(e())),
            OtherError::AsyncTimerCreate(e()),
        ),
        (FlushTimer::Flushing, FlushTimerEvent::Fsynced(Err(e())), OtherError::FsyncDisk(e())),
    ];
    for (phase, event, error) in cases {
        let mut timer = phase;
        let mut armed = true;
        assert_eq!(
            timer.flush_timer_task(event, &mut armed),
            FlushTimerAction::Done(Err(error))
        );
        assert_eq!(timer, FlushTimer::Finished);
        assert!(!armed);
    }
}

#[test]
fn kill_is_waited_for() {
    assert_eq!(wait_kill(KillEvent::Converted(Ok(()))), KillAction::Wait);
    assert_eq!(wait_kill(KillEvent::Fired(Ok(1))), KillAction::Done(Ok(())));
    assert_eq!(wait_kill(KillEvent::Fired(Err("e".to_string()))), KillAction::Done(Ok(())));
    assert_eq!(
        wait_kill(KillEvent::Converted(Err("e".to_string()))),
        KillAction::Done(Err(OtherError::AsyncKillCreate("e".to_string())))
    );
}

#[test]
fn ready_queues_get_events_in_order() {
    let ready = |desc_table: u64| Queue {
        max_size: 256,
        ready: true,
        desc_table,
        avail_ring: 0,
        used_ring: 0,
    };
    let queues = vec![ready(1), Queue::new(256), ready(2), ready(3)];
    let tasks = run_worker(vec!["x", "y"], queues.clone(), vec!['a', 'b', 'c']);
    assert!(!tasks.flush_timer_armed);
    let handlers = tasks.handlers;
    let dealt: Vec<(usize, u64, char, &str)> =
        handlers.iter().map(|h| (h.place, h.queue.desc_table, h.event, h.interrupt)).collect();
    assert_eq!(dealt, vec![(0, 1, 'a', "x"), (2, 2, 'b', "y")]);
    assert_eq!(run_worker::<char, &str>(vec!["x"], queues, vec![]).handlers.len(), 0);
}

#[test]
fn worker_ends_well() {
    assert_eq!(worker_ends(WorkerEvent::QueueEnded), Ok(()));
    assert_eq!(worker_ends(WorkerEvent::Killed(Ok(()))), Ok(()));
    let failed = OtherError::AsyncKillCreate("e".to_string());
    assert_eq!(worker_ends(WorkerEvent::Killed(Err(failed))), Ok(()));
}

#[test]
fn config_space_bytes() {
    let config = build_config_space(0x1234_5678_9abc_def0, 254, 512);
    let bytes = config.as_slice();
    assert_eq!(bytes.len(), CONFIG_SIZE);
    // Only whole sectors count.
    assert_eq!(bytes[0..8], (0x1234_5678_9abc_def0u64 >> 9).to_le_bytes());
    assert_eq!(bytes[8..12], [0; 4]);
    assert_eq!(bytes[12..16], [254, 0, 0, 0]);
    assert_eq!(bytes[16..20], [0; 4]);
    assert_eq!(bytes[20..24], [0, 2, 0, 0]);
    assert_eq!(bytes[24..34], [0; 10]);
    assert_eq!(bytes[34..36], [16, 0]);
    assert_eq!(bytes[36..40], [0xff; 4]);
    assert_eq!(bytes[40..44], [32, 0, 0, 0]);
    assert_eq!(bytes[44..48], [128, 0, 0, 0]);
    assert_eq!(bytes[48..52], [0xff; 4]);
    assert_eq!(bytes[52..56], [32, 0, 0, 0]);
    assert_eq!(bytes[56..60], [1, 0, 0, 0]);
}

#[test]
fn config_is_copied_where_both_go() {
    let src = [1u8, 2, 3, 4];
    let mut dst = [9u8; 4];
    copy_config(&mut dst, 1, &src, 0);
    assert_eq!(dst, [9, 1, 2, 3]);
    let mut dst = [9u8; 4];
    copy_config(&mut dst, 0, &src, 3);
    assert_eq!(dst, [4, 9, 9, 9]);
    let mut dst = [9u8; 4];
    copy_config(&mut dst, 0, &src, 4);
    copy_config(&mut dst, 4, &src, 0);
    copy_config(&mut dst, u64::MAX, &src, u64::MAX);
    assert_eq!(dst, [9; 4]);
}

#[test]
fn config_reads_join() {
    let b = device(0x1234_5678, false, false, 512);
    let mut whole = [7u8; 64];
    b.read_config(0, &mut whole);
    let mut first = [7u8; 21];
    b.read_config(0, &mut first);
    let mut second = [7u8; 43];
    b.read_config(21, &mut second);
    assert_eq!(whole[..21], first);
    assert_eq!(whole[21..], second);
    assert_eq!(whole[60..], [7; 4]);
}

#[test]
fn devices_are_checked() {
    let new = |len: Result<u64, i32>, block_size: u32, iov_max: usize| {
        Device::new(0, "disk_image", len, false, false, block_size, Some(3), iov_max)
    };
    assert_eq!(new(Ok(0x1000), 513, 1).err(), Some(22));
    assert_eq!(new(Err(5), 1, 1).err(), Some(22));
    assert_eq!(new(Err(5), 512, 1).err(), Some(5));
    let seg_max = |iov_max: usize| {
        let mut bytes = [0u8; 4];
        match new(Ok(0x1001), 1024, iov_max) {
            Ok(b) => b.read_config(12, &mut bytes),
            Err(errno) => panic!("errno {}", errno),
        }
        u32::from_le_bytes(bytes)
    };
    assert_eq!(seg_max(0), 1);
    assert_eq!(seg_max(100), 100);
    assert_eq!(seg_max(1024), 254);
    assert_eq!(host_seg_max(0), 1);
    assert_eq!(host_seg_max(1024), 1024);
    assert_eq!(host_seg_max(usize::MAX), u32::MAX);
}

#[test]
fn device_tells_what_it_is() {
    let mut b = device(0x1000, true, false, 512);
    assert_eq!(b.device_type(), TYPE_BLOCK);
    assert_eq!(b.device_type(), 2);
    assert_eq!(b.queue_max_sizes(), [256; 16]);
    assert_eq!(b.keep_rds(vec![5, 6], 7), vec![5, 6]);
    b.activate();
    assert_eq!(b.keep_rds(vec![5, 6], 7), vec![5, 6]);
    match Device::new(0, "disk_image", Ok(0), false, false, 512, Some(3), 1) {
        Ok(b) => assert_eq!(b.keep_rds(vec![5, 6], 7), vec![5, 6, 7]),
        Err(errno) => panic!("errno {}", errno),
    }
}

#[test]
fn reset_undoes_activation() {
    let mut b = match Device::new(0, "disk_image", Ok(0x1000), true, false, 512, Some(3), 1) {
        Ok(b) => b,
        Err(errno) => panic!("errno {}", errno),
    };
    // A device that is not active can't be reset.
    assert!(matches!(b.reset(), ResetAction::Done(false)));
    assert!(b.activate_vhost(Err("no event".to_string())).is_none());

    let worker = b.activate_vhost(Ok((1, 2))).unwrap();
    assert_eq!(worker.disk_image, "disk_image");
    assert_eq!(worker.control_socket, Some(3));
    assert_eq!(worker.kill_evt, 2);
    assert_eq!(
        worker.disk,
        DiskState { disk_size: 0x1000, read_only: true, sparse: false }
    );
    b.worker_started("thread");
    assert_eq!(b.keep_rds(vec![5], 7), Vec::<i32>::new());

    assert!(matches!(b.reset(), ResetAction::WriteKill(1)));
    assert!(matches!(b.reset_step(ResetEvent::KillWritten(true)), ResetAction::Join("thread")));
    let given_back = Some((worker.disk_image, worker.control_socket));
    assert!(matches!(b.reset_step(ResetEvent::Joined(given_back)), ResetAction::Done(true)));
    assert_eq!(b.keep_rds(vec![5], 7), vec![5, 7]);
}

#[test]
fn reset_tells_of_failures() {
    let mut b = device(0x1000, false, false, 512);
    b.activate_vhost(Ok((1, 2)));
    b.worker_started("thread");
    assert!(matches!(b.reset(), ResetAction::WriteKill(1)));
    assert!(matches!(b.reset_step(ResetEvent::KillWritten(false)), ResetAction::Done(false)));
    // The kill event is gone, the worker is not.
    assert!(matches!(b.reset(), ResetAction::Join("thread")));
    assert!(matches!(b.reset_step(ResetEvent::Joined(None)), ResetAction::Done(false)));
    // Without the disk image there is no worker.
    assert!(b.activate_vhost(Ok((3, 4))).is_none());
    assert_eq!(b.shut_down(), (Some(3), None));
    assert_eq!(b.shut_down(), (None, None));
}

#[test]
fn read_gives_back_what_was_written() {
    // Performs a request on a disk that is held in memory.
    fn perform(disk: &mut Vec<u8>, bytes: [u8; 16], data: &mut [u8], write: bool) {
        let state = writable(disk.len() as u64);
        let (readable, room) = if write { (data.len(), 0) } else { (0, data.len()) };
        let mut armed = true;
        let (mut request, mut action) = Request::execute_request(Ok(bytes), readable, room, &state);
        loop {
            let event = match action {
                RequestAction::WriteDisk { data_len, offset } => {
                    let start = offset as usize;
                    disk[start..start + data_len].copy_from_slice(data);
                    RequestEvent::DiskWritten(Ok(()))
                }
                RequestAction::ReadDisk { data_len, offset } => {
                    let start = offset as usize;
                    data.copy_from_slice(&disk[start..start + data_len]);
                    RequestEvent::DiskRead(Ok(()))
                }
                RequestAction::Done(outcome) => {
                    assert_eq!(outcome, Ok(()));
                    return;
                }
                _ => panic!("unexpected action"),
            };
            action = request.step(event, &mut armed);
        }
    }

    let mut disk = vec![7u8; 0x1000];
    let mut written = [0u8; 700];
    for (i, byte) in written.iter_mut().enumerate() {
        *byte = i as u8;
    }
    let mut data = written;
    perform(&mut disk, header(VIRTIO_BLK_T_OUT, 3), &mut data, true);
    let mut read = [0u8; 700];
    perform(&mut disk, header(VIRTIO_BLK_T_IN, 3), &mut read, false);
    assert_eq!(read, written);
    assert!(disk[..3 * 512].iter().all(|byte| *byte == 7));
    assert!(disk[3 * 512 + 700..].iter().all(|byte| *byte == 7));
}
