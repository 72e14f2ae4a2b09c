use timed_transfer::gpu::{GpuMem, Release};
use timed_transfer::mailbox::{
    allocate_request, lock_request, release_request, reply_value, unlock_request,
};

#[test]
fn allocate_request_layout() {
    let a = GpuMem::allocate(5000);
    assert_eq!(a.size(), 8192);
    assert_eq!(
        a.request(),
        vec![36, 0, 0x3000c, 12, 12, 8192, 4096, 4 | 16, 0]
    );
    assert_eq!(
        allocate_request(100, 8, 1),
        vec![36, 0, 0x3000c, 12, 12, 100, 8, 1, 0]
    );
}

#[test]
fn handle_request_layouts() {
    assert_eq!(lock_request(7), vec![28, 0, 0x3000d, 4, 4, 7, 0]);
    assert_eq!(unlock_request(7), vec![28, 0, 0x3000e, 4, 4, 7, 0]);
    assert_eq!(release_request(7), vec![28, 0, 0x3000f, 4, 4, 7, 0]);
}

#[test]
fn reply_value_word() {
    assert_eq!(reply_value(&[28, 0x8000_0000, 0x3000d, 4, 0x8000_0004, 0xDEAD, 0]), Some(0xDEAD));
    assert_eq!(reply_value(&[28, 0, 0]), None);
}

#[test]
fn page_rounding() {
    assert_eq!(GpuMem::allocate(0).size(), 0);
    assert_eq!(GpuMem::allocate(1).size(), 4096);
    assert_eq!(GpuMem::allocate(4095).size(), 4096);
    assert_eq!(GpuMem::allocate(4096).size(), 4096);
    assert_eq!(GpuMem::allocate(4097).size(), 8192);
    assert_eq!(GpuMem::allocate(0xFFFF_F000).size(), 0xFFFF_F000);
}

#[test]
fn handshake_and_release() {
    let a = GpuMem::allocate(100);
    let mut reply = a.request();
    reply[5] = 42;
    let l = a.allocated(&reply).unwrap();
    assert_eq!(l.request(), vec![28, 0, 0x3000d, 4, 4, 42, 0]);
    let mut reply = l.request();
    reply[5] = 0xDE40_0000;
    let m = l.locked(&reply).unwrap();
    assert_eq!(m.phys(), 0x1E40_0000);
    assert_eq!(m.size(), 4096);
    let mem = m.mapped(0x7000_0000);
    assert_eq!(mem.handle(), 42);
    assert_eq!(mem.size(), 4096);
    let mm = mem.memmap();
    assert_eq!((mm.bus, mm.phys, mm.virt), (0xDE40_0000, 0x1E40_0000, 0x7000_0000));

    let steps = mem.release();
    assert_eq!(steps.len(), 3);
    match &steps[0] {
        Release::Unmap { virt, size } => assert_eq!((*virt, *size), (0x7000_0000, 4096)),
        _ => panic!("unmap must come first"),
    }
    match &steps[1] {
        Release::Send(m) => assert_eq!(m, &vec![28, 0, 0x3000e, 4, 4, 42, 0]),
        _ => panic!("unlock must come second"),
    }
    match &steps[2] {
        Release::Send(m) => assert_eq!(m, &vec![28, 0, 0x3000f, 4, 4, 42, 0]),
        _ => panic!("release must come last"),
    }
}

#[test]
fn short_reply_is_refused() {
    let a = GpuMem::allocate(100);
    assert!(a.allocated(&[1, 2, 3]).is_none());
}
