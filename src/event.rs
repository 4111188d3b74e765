use vstd::prelude::*;

use crate::mask::Mask;

verus! {

/// Size in bytes of the fixed header that starts every record.
pub const HEADER_LEN: usize = 16;

/// The largest name length, in bytes, that a record may declare.
pub const MAX_NAME_LEN: u32 = 4096;

/// The order in which the bytes of a header's integers are laid out.
///
/// The kernel writes headers in the byte order of the machine it runs on.
#[derive(Clone, Copy, Debug, PartialEq, Eq, Structural)]
pub enum ByteOrder {
    /// Least significant byte first
    Little,
    /// Most significant byte first
    Big,
}

/// A registration of interest in a path: the kernel's watch descriptor.
#[derive(Clone, Copy, Debug, PartialEq, Eq, Structural)]
pub struct Watch {
    wd: i32,
}

impl Watch {
    /// The watch descriptor.
    pub closed spec fn view(self) -> i32 {
        self.wd
    }

    pub(crate) fn new(wd: i32) -> (r: Watch)
        ensures
            r@ == wd,
    {
        Watch { wd }
    }

    /// The watch descriptor, as handed to the kernel.
    pub fn id(self) -> (r: i32)
        ensures
            r == self@,
    {
        self.wd
    }
}

/// One decoded notification.
#[derive(Clone, Debug)]
pub struct Event {
    /// The watch that the event belongs to
    pub watch: Watch,
    /// What happened
    pub mask: Mask,
    /// Links the two halves of a rename
    pub cookie: u32,
    /// The name the kernel gave, without its NUL padding; empty when it gave none
    pub path: Vec<u8>,
}

/// Why a record could not be decoded.
#[derive(Clone, Copy, Debug, PartialEq, Eq, Structural)]
pub enum DecodeError {
    /// The stream ended inside a header
    TruncatedHeader,
    /// The stream ended inside a name
    TruncatedName,
    /// A header declared a name longer than [`MAX_NAME_LEN`]
    NameTooLong(u32),
    /// Reading the stream failed, with the operating system's error code if any
    Stream(Option<i32>),
}

/// What the decoder asks for, or hands back, after looking at its bytes.
#[derive(Debug)]
pub enum Step {
    /// Exactly this many more bytes complete the current part of the record
    Need(usize),
    /// A whole record, decoded
    Ready(Event),
    /// The stream cannot be decoded
    Failed(DecodeError),
}

/// The four bytes at `i`, read as an unsigned integer in the given order.
pub open spec fn u32_at(order: ByteOrder, s: Seq<u8>, i: int) -> u32 {
    let v = match order {
        ByteOrder::Little => s[i] as int + 0x100 * s[i + 1] + 0x10000 * s[i + 2] + 0x1000000 * s[i
            + 3],
        ByteOrder::Big => s[i + 3] as int + 0x100 * s[i + 2] + 0x10000 * s[i + 1] + 0x1000000
            * s[i],
    };
    v as u32
}

/// The watch descriptor of the header at the start of `s`.
pub open spec fn header_wd(order: ByteOrder, s: Seq<u8>) -> i32 {
    u32_at(order, s, 0) as i32
}

/// The mask of the header at the start of `s`.
pub open spec fn header_mask(order: ByteOrder, s: Seq<u8>) -> u32 {
    u32_at(order, s, 4)
}

/// The cookie of the header at the start of `s`.
pub open spec fn header_cookie(order: ByteOrder, s: Seq<u8>) -> u32 {
    u32_at(order, s, 8)
}

/// The name length, padding included, of the header at the start of `s`.
pub open spec fn header_name_len(order: ByteOrder, s: Seq<u8>) -> u32 {
    u32_at(order, s, 12)
}

/// The length of the whole record that starts `s`.
pub open spec fn record_len(order: ByteOrder, s: Seq<u8>) -> int {
    HEADER_LEN + header_name_len(order, s)
}

/// `s` without its trailing NUL bytes.
pub open spec fn trim_nul(s: Seq<u8>) -> Seq<u8>
    decreases s.len(),
{
    if s.len() > 0 && s.last() == 0 {
        trim_nul(s.drop_last())
    } else {
        s
    }
}

/// The name of the record that starts `s`, its padding trimmed.
pub open spec fn record_name(order: ByteOrder, s: Seq<u8>) -> Seq<u8> {
    trim_nul(s.subrange(HEADER_LEN as int, record_len(order, s)))
}

/// `e` is the event of the record that starts `s`.
pub open spec fn is_event_of(e: Event, order: ByteOrder, s: Seq<u8>) -> bool {
    &&& e.watch@ == header_wd(order, s)
    &&& e.mask@ == header_mask(order, s)
    &&& e.cookie == header_cookie(order, s)
    &&& e.path@ == record_name(order, s)
}

/// The bytes `s` hold no whole record yet, and nothing wrong has been seen:
/// more bytes are wanted.
pub open spec fn incomplete(order: ByteOrder, s: Seq<u8>) -> bool {
    s.len() < HEADER_LEN || (header_name_len(order, s) <= MAX_NAME_LEN && s.len() < record_len(
        order,
        s,
    ))
}

/// Looking at the bytes `s` gives `r` and leaves `rest` behind.
///
/// A header is read first; a declared name longer than [`MAX_NAME_LEN`] fails
/// at once; otherwise the name is read, and the whole record is consumed.
pub open spec fn decodes(order: ByteOrder, s: Seq<u8>, r: Step, rest: Seq<u8>) -> bool {
    if s.len() < HEADER_LEN {
        r == Step::Need((HEADER_LEN - s.len()) as usize) && rest == s
    } else if header_name_len(order, s) > MAX_NAME_LEN {
        r == Step::Failed(DecodeError::NameTooLong(header_name_len(order, s))) && rest == s
    } else if s.len() < record_len(order, s) {
        r == Step::Need((record_len(order, s) - s.len()) as usize) && rest == s
    } else {
        &&& r is Ready
        &&& is_event_of(r->Ready_0, order, s)
        &&& rest == s.skip(record_len(order, s))
    }
}

/// The failure for a stream that ends while the bytes `s` are incomplete.
pub open spec fn truncation(s: Seq<u8>) -> DecodeError {
    if s.len() < HEADER_LEN {
        DecodeError::TruncatedHeader
    } else {
        DecodeError::TruncatedName
    }
}

/// Reads the four bytes at `i` as an unsigned integer in the given order.
fn read_u32(order: ByteOrder, b: &Vec<u8>, i: usize) -> (r: u32)
    requires
        i + 4 <= b@.len(),
    ensures
        r == u32_at(order, b@, i as int),
{
    let n = b.len();
    assert(i + 4 <= n);
    let (b0, b1, b2, b3) = match order {
        ByteOrder::Little => (b[i], b[i + 1], b[i + 2], b[i + 3]),
        ByteOrder::Big => (b[i + 3], b[i + 2], b[i + 1], b[i]),
    };
    b0 as u32 + b1 as u32 * 0x100 + b2 as u32 * 0x10000 + b3 as u32 * 0x1000000
}

/// The bytes of `v` from `lo` up to `hi`.
fn copy_range(v: &Vec<u8>, lo: usize, hi: usize) -> (r: Vec<u8>)
    requires
        lo <= hi <= v@.len(),
    ensures
        r@ == v@.subrange(lo as int, hi as int),
{
    let mut r: Vec<u8> = Vec::new();
    let mut i: usize = lo;
    while i < hi
        invariant
            lo <= i <= hi <= v@.len(),
            r@ == v@.subrange(lo as int, i as int),
        decreases hi - i,
    {
        r.push(v[i]);
        i += 1;
        assert(r@ =~= v@.subrange(lo as int, i as int));
    }
    r
}

/// Rebuilds events from the bytes of an inotify stream.
///
/// The bytes may come in pieces of any size. The decoder keeps what it has
/// been given and not yet consumed; it says how many bytes it needs next,
/// and hands back one event for each whole record.
pub struct Decoder {
    order: ByteOrder,
    pending: Vec<u8>,
}

impl Decoder {
    /// The bytes given and not yet consumed.
    pub closed spec fn pending(&self) -> Seq<u8> {
        self.pending@
    }

    /// The byte order in which headers are read.
    pub closed spec fn order(&self) -> ByteOrder {
        self.order
    }

    /// A decoder with no bytes yet, reading headers in the given order.
    pub fn new(order: ByteOrder) -> (r: Decoder)
        ensures
            r.pending() == Seq::<u8>::empty(),
            r.order() == order,
    {
        Decoder { order, pending: Vec::new() }
    }

    /// Looks at the bytes held: asks for more, fails on an oversized name,
    /// or consumes one whole record and returns its event.
    pub fn poll(&mut self) -> (r: Step)
        ensures
            final(self).order() == old(self).order(),
            decodes(old(self).order(), old(self).pending(), r, final(self).pending()),
    {
        let have = self.pending.len();
        if have < HEADER_LEN {
            return Step::Need(HEADER_LEN - have);
        }
        let name_len = read_u32(self.order, &self.pending, 12);
        if name_len > MAX_NAME_LEN {
            return Step::Failed(DecodeError::NameTooLong(name_len));
        }
        let total = HEADER_LEN + name_len as usize;
        if have < total {
            return Step::Need(total - have);
        }
        let wd = #[verifier::truncate] (read_u32(self.order, &self.pending, 0) as i32);
        let mask = read_u32(self.order, &self.pending, 4);
        let cookie = read_u32(self.order, &self.pending, 8);
        let ghost s = self.pending@;
        let mut end = total;
        while end > HEADER_LEN && self.pending[end - 1] == 0
            invariant
                HEADER_LEN <= end <= total <= s.len(),
                self.pending@ == s,
                trim_nul(s.subrange(HEADER_LEN as int, end as int)) == record_name(self.order, s),
            decreases end,
        {
            assert(s.subrange(HEADER_LEN as int, end - 1) =~= s.subrange(
                HEADER_LEN as int,
                end as int,
            ).drop_last());
            end -= 1;
        }
        let path = copy_range(&self.pending, HEADER_LEN, end);
        let rest = copy_range(&self.pending, total, have);
        self.pending = rest;
        proof {
            assert(s.skip(total as int) =~= s.subrange(total as int, have as int));
        }
        Step::Ready(Event { watch: Watch::new(wd), mask: Mask::from_raw(mask), cookie, path })
    }

    /// Takes the bytes of one read from the stream, then looks at what it
    /// holds as [`Decoder::poll`] does. An empty `chunk` means that the
    /// stream has ended: if the bytes held are then incomplete, decoding
    /// fails as truncated and nothing changes.
    pub fn on_read(&mut self, chunk: &[u8]) -> (r: Step)
        ensures
            final(self).order() == old(self).order(),
            chunk@.len() == 0 && incomplete(old(self).order(), old(self).pending()) ==> r
                == Step::Failed(truncation(old(self).pending())) && final(self).pending() == old(
                self,
            ).pending(),
            !(chunk@.len() == 0 && incomplete(old(self).order(), old(self).pending())) ==> decodes(
                old(self).order(),
                old(self).pending() + chunk@,
                r,
                final(self).pending(),
            ),
    {
        let ghost s = self.pending@;
        let mut i: usize = 0;
        while i < chunk.len()
            invariant
                i <= chunk@.len(),
                self.pending@ == s + chunk@.subrange(0, i as int),
                self.order == old(self).order,
            decreases chunk@.len() - i,
        {
            self.pending.push(chunk[i]);
            i += 1;
            assert(self.pending@ =~= s + chunk@.subrange(0, i as int));
        }
        assert(chunk@.subrange(0, chunk@.len() as int) =~= chunk@);
        let r = self.poll();
        if chunk.len() == 0 {
            if let Step::Need(_) = r {
                let failure = if self.pending.len() < HEADER_LEN {
                    DecodeError::TruncatedHeader
                } else {
                    DecodeError::TruncatedName
                };
                return Step::Failed(failure);
            }
        }
        r
    }
}

} // verus!
