use inotify_stream::{ByteOrder, DecodeError, Decoder, Event, Flag, Mask, Step, Watch};

fn native_order() -> ByteOrder {
    if u32::from_ne_bytes([1, 0, 0, 0]) == 1 {
        ByteOrder::Little
    } else {
        ByteOrder::Big
    }
}

fn header(wd: i32, mask: u32, cookie: u32, len: u32) -> Vec<u8> {
    let mut b = Vec::new();
    b.extend_from_slice(&wd.to_ne_bytes());
    b.extend_from_slice(&mask.to_ne_bytes());
    b.extend_from_slice(&cookie.to_ne_bytes());
    b.extend_from_slice(&len.to_ne_bytes());
    b
}

fn ready(step: Step) -> Event {
    match step {
        Step::Ready(e) => e,
        other => panic!("expected an event, got {:?}", other),
    }
}

fn need(step: Step) -> usize {
    match step {
        Step::Need(n) => n,
        other => panic!("expected a request for bytes, got {:?}", other),
    }
}

fn failure(step: Step) -> DecodeError {
    match step {
        Step::Failed(e) => e,
        other => panic!("expected a failure, got {:?}", other),
    }
}

#[test]
fn round_trip_across_partial_reads() {
    let mut bytes = header(5, Flag::Modify.bits(), 42, 8);
    bytes.extend_from_slice(b"file\0\0\0\0");
    let mut d = Decoder::new(native_order());
    assert_eq!(need(d.poll()), 16);
    assert_eq!(need(d.on_read(&bytes[..10])), 6);
    let e = ready(d.on_read(&bytes[10..]));
    assert_eq!(e.watch.id(), 5);
    assert!(e.mask == Mask::of(Flag::Modify));
    assert_eq!(e.mask.bits(), 0x2);
    assert_eq!(e.cookie, 42);
    assert_eq!(e.path, b"file".to_vec());
    assert_eq!(need(d.poll()), 16);
}

#[test]
fn header_then_name_in_separate_reads() {
    let bytes = header(9, Flag::Create.bits(), 0, 8);
    let mut d = Decoder::new(native_order());
    assert_eq!(need(d.on_read(&bytes)), 8);
    assert_eq!(need(d.on_read(b"ab\0")), 5);
    let e = ready(d.on_read(b"\0\0\0\0\0"));
    assert_eq!(e.path, b"ab".to_vec());
    assert_eq!(e.watch.id(), 9);
}

#[test]
fn zero_name_event() {
    let bytes = header(3, Flag::DeleteSelf.bits(), 0, 0);
    let mut d = Decoder::new(native_order());
    let e = ready(d.on_read(&bytes));
    assert!(e.path.is_empty());
    assert!(e.mask == Mask::of(Flag::DeleteSelf));
    assert_eq!(e.cookie, 0);
}

#[test]
fn truncated_header() {
    let bytes = header(5, Flag::Modify.bits(), 42, 0);
    let mut d = Decoder::new(native_order());
    assert_eq!(need(d.on_read(&bytes[..10])), 6);
    assert_eq!(failure(d.on_read(&[])), DecodeError::TruncatedHeader);
}

#[test]
fn stream_closed_before_any_byte() {
    let mut d = Decoder::new(native_order());
    assert_eq!(failure(d.on_read(&[])), DecodeError::TruncatedHeader);
}

#[test]
fn truncated_name() {
    let mut bytes = header(5, Flag::Modify.bits(), 42, 8);
    bytes.extend_from_slice(b"fil");
    let mut d = Decoder::new(native_order());
    assert_eq!(need(d.on_read(&bytes)), 5);
    assert_eq!(failure(d.on_read(&[])), DecodeError::TruncatedName);
}

#[test]
fn oversized_name() {
    let bytes = header(5, Flag::Modify.bits(), 0, 4097);
    let mut d = Decoder::new(native_order());
    assert_eq!(failure(d.on_read(&bytes)), DecodeError::NameTooLong(4097));
}

#[test]
fn largest_name_is_accepted() {
    let bytes = header(5, Flag::Modify.bits(), 0, 4096);
    let mut d = Decoder::new(native_order());
    assert_eq!(need(d.on_read(&bytes)), 4096);
    let mut name = vec![b'x'; 10];
    name.resize(4096, 0);
    let e = ready(d.on_read(&name));
    assert_eq!(e.path, vec![b'x'; 10]);
}

#[test]
fn surplus_bytes_are_kept_for_the_next_record() {
    let mut bytes = header(1, Flag::MovedFrom.bits(), 77, 4);
    bytes.extend_from_slice(b"old\0");
    bytes.extend_from_slice(&header(1, Flag::MovedTo.bits(), 77, 4));
    bytes.extend_from_slice(b"new\0");
    bytes.extend_from_slice(&header(2, Flag::Open.bits(), 0, 0)[..3]);
    let mut d = Decoder::new(native_order());
    let first = ready(d.on_read(&bytes));
    assert_eq!(first.path, b"old".to_vec());
    assert!(first.mask == Mask::of(Flag::MovedFrom));
    let second = ready(d.poll());
    assert_eq!(second.path, b"new".to_vec());
    assert_eq!(second.cookie, first.cookie);
    assert_eq!(need(d.poll()), 13);
}

#[test]
fn both_byte_orders() {
    let mut le = Vec::new();
    let mut be = Vec::new();
    for v in [0x0102_0304u32, 0x11, 7, 0] {
        le.extend_from_slice(&v.to_le_bytes());
        be.extend_from_slice(&v.to_be_bytes());
    }
    let a = ready(Decoder::new(ByteOrder::Little).on_read(&le));
    let b = ready(Decoder::new(ByteOrder::Big).on_read(&be));
    assert_eq!(a.watch.id(), 0x0102_0304);
    assert!(a.watch == b.watch);
    assert_eq!(a.mask.bits(), 0x11);
    assert_eq!(b.mask.bits(), 0x11);
    assert_eq!(a.cookie, 7);
    assert_eq!(b.cookie, 7);
}

#[test]
fn negative_descriptor_is_read_as_signed() {
    let bytes = header(-2, 0, 0, 0);
    let e = ready(Decoder::new(native_order()).on_read(&bytes));
    assert_eq!(e.watch.id(), -2);
    let w: Watch = e.watch;
    assert_eq!(w, e.watch);
}
