use blkpg::layout::BlkpgIoctlArg;
use blkpg::resize::{resize_outcome, resize_request, SystemError};
use blkpg::resize_partition;

#[test]
fn resize_issues_the_request_for_the_partition() {
    let mut seen: Vec<(u32, BlkpgIoctlArg)> = Vec::new();
    let res = resize_partition(
        |opcode, arg| {
            seen.push((opcode, arg));
            Ok(())
        },
        2,
        100,
        200,
        512,
    );
    assert_eq!(res, Ok(()));
    assert_eq!(seen.len(), 1);
    let (opcode, arg) = seen[0];
    assert_eq!(opcode, 0x1269);
    assert_eq!(opcode & 0xff, 105);
    assert_eq!((opcode >> 8) & 0xff, 0x12);
    assert_eq!(arg.op, 3);
    assert_eq!(arg.flags, 0);
    assert_eq!(arg.datalen, 0);
    assert_eq!(arg.data.start, 51200);
    assert_eq!(arg.data.length, 51200);
    assert_eq!(arg.data.pno, 2);
    assert_eq!(arg.data.devname, [0u8; 64]);
    assert_eq!(arg.data.volname, [0u8; 64]);
}

#[test]
fn resize_hands_the_kernel_the_expected_bytes() {
    let mut record: Vec<u8> = Vec::new();
    let mut envelope: Vec<u8> = Vec::new();
    let res = resize_partition(
        |_, arg| {
            record = arg.data.to_bytes();
            envelope = arg.to_bytes(0x1000);
            Ok(())
        },
        2,
        100,
        200,
        512,
    );
    assert_eq!(res, Ok(()));
    let mut expected = vec![0u8; 152];
    expected[1] = 0xc8;
    expected[9] = 0xc8;
    expected[16] = 0x02;
    assert_eq!(record, expected);
    let mut head = vec![0u8; 24];
    head[0] = 0x03;
    head[17] = 0x10;
    assert_eq!(envelope, head);
}

#[test]
fn resize_returns_the_failure_code_unchanged() {
    let mut calls = 0;
    let res = resize_partition(
        |_, _| {
            calls += 1;
            Err(16)
        },
        1,
        2048,
        4096,
        512,
    );
    assert_eq!(res, Err(SystemError { code: 16 }));
    assert_eq!(res.unwrap_err().raw_os_error(), 16);
    assert_eq!(calls, 1);
}

#[test]
fn resize_passes_on_every_error_code() {
    for code in [1, 13, 22, 19, 6, 25, 0, -1, i32::MAX, i32::MIN] {
        let res = resize_partition(|_, _| Err(code), 1, 0, 8, 512);
        assert_eq!(res, Err(SystemError { code }));
    }
}

#[test]
fn resize_twice_issues_two_calls() {
    let mut seen: Vec<(u32, i64, i64, i32)> = Vec::new();
    for _ in 0..2 {
        let res = resize_partition(
            |opcode, arg| {
                seen.push((opcode, arg.data.start, arg.data.length, arg.data.pno));
                Ok(())
            },
            3,
            2048,
            1_050_624,
            512,
        );
        assert_eq!(res, Ok(()));
    }
    assert_eq!(seen.len(), 2);
    assert_eq!(seen[0], (0x1269, 1_048_576, 536_870_912, 3));
    assert_eq!(seen[1], seen[0]);
}

#[test]
fn resize_does_not_remember_an_earlier_failure() {
    let first = resize_partition(|_, _| Err(16), 2, 100, 200, 512);
    let second = resize_partition(|_, _| Ok(()), 2, 100, 200, 512);
    let third = resize_partition(|_, _| Err(22), 2, 100, 200, 512);
    assert_eq!(first, Err(SystemError { code: 16 }));
    assert_eq!(second, Ok(()));
    assert_eq!(third, Err(SystemError { code: 22 }));
}

#[test]
fn resize_leaves_bad_geometry_to_the_kernel() {
    let mut seen: Vec<BlkpgIoctlArg> = Vec::new();
    let res = resize_partition(
        |_, arg| {
            seen.push(arg);
            Err(22)
        },
        0,
        200,
        100,
        512,
    );
    assert_eq!(res, Err(SystemError { code: 22 }));
    assert_eq!(seen.len(), 1);
    assert_eq!(seen[0].data.start, 102400);
    assert_eq!(seen[0].data.length, -51200);
    assert_eq!(seen[0].data.pno, 0);
    assert_eq!(seen[0].op, 3);
}

#[test]
fn request_is_fixed_but_for_the_record() {
    let inputs = [
        (1, 0i64, 1i64, 512i64),
        (2, 100, 200, 512),
        (128, 34, 2048, 4096),
        (-5, -7, i64::MAX, 0),
        (i32::MAX, i64::MIN, i64::MAX, i64::MAX),
    ];
    for (pno, start, end, size) in inputs {
        let arg = resize_request(pno, start, end, size);
        assert_eq!(arg.op, 3);
        assert_eq!(arg.flags, 0);
        assert_eq!(arg.datalen, 0);
        assert_eq!(arg.data.pno, pno);
        assert_eq!(arg.data.devname, [0u8; 64]);
        assert_eq!(arg.data.volname, [0u8; 64]);
    }
}

#[test]
fn request_converts_sectors_to_bytes() {
    let arg = resize_request(2, 100, 200, 512);
    assert_eq!(arg.data.start, 51200);
    assert_eq!(arg.data.length, 51200);
    let big = resize_request(1, 2048, 1_953_525_134, 512);
    assert_eq!(big.data.start, 1_048_576);
    assert_eq!(big.data.length, 1_000_203_820_032);
    let coarse = resize_request(4, 256, 262_400, 4096);
    assert_eq!(coarse.data.start, 1_048_576);
    assert_eq!(coarse.data.length, 1_073_741_824);
}

#[test]
fn request_wraps_what_does_not_fit() {
    let arg = resize_request(1, 1 << 62, i64::MAX, 4);
    assert_eq!(arg.data.start, 0);
    assert_eq!(arg.data.length, -4);
}

#[test]
fn outcome_keeps_success_and_failure_apart() {
    assert_eq!(resize_outcome(Ok(())), Ok(()));
    assert_eq!(resize_outcome(Err(16)), Err(SystemError { code: 16 }));
    assert_eq!(resize_outcome(Err(0)), Err(SystemError { code: 0 }));
    assert_eq!(resize_outcome(Err(-22)), Err(SystemError { code: -22 }));
}
