use uring_setup::{Cqe, OpArg, Sqe};

fn sample() -> Sqe {
    Sqe {
        opcode: 1,
        flags: 2,
        ioprio: 0x0304,
        fd: -1,
        off: 0x1122_3344_5566_7788,
        addr: 0x0102_0304_0506_0708,
        len: 0xaabb_ccdd,
        arg: OpArg::PollEvents(0x0041),
        user_data: 0xdead_beef_0bad_f00d,
        buf_index: 0x0506,
    }
}

#[test]
fn op_arg_words() {
    assert_eq!(OpArg::RwFlags(-1).word(), 0xffff_ffff);
    assert_eq!(OpArg::FsyncFlags(1).word(), 1);
    assert_eq!(OpArg::PollEvents(0x1234).word(), 0x1234);
    assert_eq!(OpArg::SyncRangeFlags(7).word(), 7);
}

#[test]
fn sqe_wire_layout() {
    let b = sample().to_bytes();
    assert_eq!(b.len(), 64);
    assert_eq!(&b[0..4], &[1, 2, 0x04, 0x03]);
    assert_eq!(&b[4..8], &[0xff, 0xff, 0xff, 0xff]);
    assert_eq!(&b[8..16], &[0x88, 0x77, 0x66, 0x55, 0x44, 0x33, 0x22, 0x11]);
    assert_eq!(&b[16..24], &[0x08, 0x07, 0x06, 0x05, 0x04, 0x03, 0x02, 0x01]);
    assert_eq!(&b[24..28], &[0xdd, 0xcc, 0xbb, 0xaa]);
    assert_eq!(&b[28..32], &[0x41, 0, 0, 0]);
    assert_eq!(&b[32..40], &0xdead_beef_0bad_f00du64.to_le_bytes());
    assert_eq!(&b[40..42], &[0x06, 0x05]);
    assert!(b[42..].iter().all(|x| *x == 0));
}

#[test]
fn cqe_wire_layout() {
    let mut b = vec![0u8; 16];
    b[0..8].copy_from_slice(&42u64.to_le_bytes());
    b[8..12].copy_from_slice(&(-11i32).to_le_bytes());
    b[12..16].copy_from_slice(&3u32.to_le_bytes());
    assert_eq!(Cqe::from_bytes(&b), Some(Cqe { user_data: 42, res: -11, flags: 3 }));
    assert_eq!(Cqe::from_bytes(&b[..15]), None);
    assert_eq!(Cqe::from_bytes(&[0u8; 17]), None);
}

#[test]
fn user_tag_comes_back() {
    let sqe = sample();
    let b = sqe.to_bytes();
    let mut c = vec![0u8; 16];
    c[0..8].copy_from_slice(&b[32..40]);
    c[8..12].copy_from_slice(&5i32.to_le_bytes());
    let cqe = Cqe::from_bytes(&c).unwrap();
    assert_eq!(cqe.user_data, sqe.user_data);
    assert_eq!(cqe.res, 5);
}
