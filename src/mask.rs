use vstd::prelude::*;
use vstd::string::*;

verus! {

/// A named inotify flag, or one of the two named unions of flags.
#[derive(Clone, Copy, Debug, PartialEq, Eq, Structural)]
pub enum Flag {
    /// File accessed
    Access,
    /// File modified
    Modify,
    /// Metadata changed
    Attrib,
    /// Writable file was closed
    CloseWrite,
    /// Unwritable file was closed
    CloseNowrite,
    /// File was opened
    Open,
    /// File was moved from X
    MovedFrom,
    /// File was moved to Y
    MovedTo,
    /// Subfile was created
    Create,
    /// Subfile was deleted
    Delete,
    /// Self was deleted
    DeleteSelf,
    /// Self was moved
    MoveSelf,
    /// Backing filesystem was unmounted
    Unmount,
    /// Event queue overflowed
    QOverflow,
    /// Watch was removed, explicitly or by the kernel
    Ignored,
    /// Either kind of close: `CloseWrite` and `CloseNowrite` together
    Close,
    /// Either half of a move: `MovedFrom` and `MovedTo` together
    Move,
    /// Only watch the path if it is a directory
    Onlydir,
    /// Do not follow a symbolic link
    DontFollow,
    /// Exclude events on unlinked objects
    ExclUnlink,
    /// Only create a watch, never modify an existing one
    MaskCreate,
    /// Add to the mask of an already existing watch
    MaskAdd,
    /// The event occurred against a directory
    Isdir,
    /// Only send the event once
    Oneshot,
}

/// The bits that a flag stands for.
pub open spec fn flag_bits(f: Flag) -> u32 {
    match f {
        Flag::Access => 0x00000001,
        Flag::Modify => 0x00000002,
        Flag::Attrib => 0x00000004,
        Flag::CloseWrite => 0x00000008,
        Flag::CloseNowrite => 0x00000010,
        Flag::Open => 0x00000020,
        Flag::MovedFrom => 0x00000040,
        Flag::MovedTo => 0x00000080,
        Flag::Create => 0x00000100,
        Flag::Delete => 0x00000200,
        Flag::DeleteSelf => 0x00000400,
        Flag::MoveSelf => 0x00000800,
        Flag::Unmount => 0x00002000,
        Flag::QOverflow => 0x00004000,
        Flag::Ignored => 0x00008000,
        Flag::Close => 0x00000018,
        Flag::Move => 0x000000C0,
        Flag::Onlydir => 0x01000000,
        Flag::DontFollow => 0x02000000,
        Flag::ExclUnlink => 0x04000000,
        Flag::MaskCreate => 0x10000000,
        Flag::MaskAdd => 0x20000000,
        Flag::Isdir => 0x40000000,
        Flag::Oneshot => 0x80000000,
    }
}

/// The name under which a flag is rendered.
pub open spec fn flag_name(f: Flag) -> Seq<char> {
    match f {
        Flag::Access => "ACCESS"@,
        Flag::Modify => "MODIFY"@,
        Flag::Attrib => "ATTRIB"@,
        Flag::CloseWrite => "CLOSE_WRITE"@,
        Flag::CloseNowrite => "CLOSE_NOWRITE"@,
        Flag::Open => "OPEN"@,
        Flag::MovedFrom => "MOVED_FROM"@,
        Flag::MovedTo => "MOVED_TO"@,
        Flag::Create => "CREATE"@,
        Flag::Delete => "DELETE"@,
        Flag::DeleteSelf => "DELETE_SELF"@,
        Flag::MoveSelf => "MOVE_SELF"@,
        Flag::Unmount => "UNMOUNT"@,
        Flag::QOverflow => "Q_OVERFLOW"@,
        Flag::Ignored => "IGNORED"@,
        Flag::Close => "CLOSE"@,
        Flag::Move => "MOVE"@,
        Flag::Onlydir => "ONLYDIR"@,
        Flag::DontFollow => "DONT_FOLLOW"@,
        Flag::ExclUnlink => "EXCL_UNLINK"@,
        Flag::MaskCreate => "MASK_CREATE"@,
        Flag::MaskAdd => "MASK_ADD"@,
        Flag::Isdir => "ISDIR"@,
        Flag::Oneshot => "ONESHOT"@,
    }
}

/// The flags that rendering lists, in the order in which they are declared.
pub open spec fn display_order() -> Seq<Flag> {
    seq![
        Flag::Access,
        Flag::Modify,
        Flag::Attrib,
        Flag::CloseWrite,
        Flag::CloseNowrite,
        Flag::Open,
        Flag::MovedFrom,
        Flag::MovedTo,
        Flag::Create,
        Flag::Delete,
        Flag::DeleteSelf,
        Flag::MoveSelf,
        Flag::Unmount,
        Flag::QOverflow,
        Flag::Ignored,
        Flag::Onlydir,
        Flag::DontFollow,
        Flag::ExclUnlink,
        Flag::MaskCreate,
        Flag::MaskAdd,
        Flag::Isdir,
        Flag::Oneshot,
    ]
}

impl Flag {
    /// The bits that this flag stands for.
    pub fn bits(self) -> (r: u32)
        ensures
            r == flag_bits(self),
    {
        match self {
            Flag::Access => 0x00000001,
            Flag::Modify => 0x00000002,
            Flag::Attrib => 0x00000004,
            Flag::CloseWrite => 0x00000008,
            Flag::CloseNowrite => 0x00000010,
            Flag::Open => 0x00000020,
            Flag::MovedFrom => 0x00000040,
            Flag::MovedTo => 0x00000080,
            Flag::Create => 0x00000100,
            Flag::Delete => 0x00000200,
            Flag::DeleteSelf => 0x00000400,
            Flag::MoveSelf => 0x00000800,
            Flag::Unmount => 0x00002000,
            Flag::QOverflow => 0x00004000,
            Flag::Ignored => 0x00008000,
            Flag::Close => 0x00000018,
            Flag::Move => 0x000000C0,
            Flag::Onlydir => 0x01000000,
            Flag::DontFollow => 0x02000000,
            Flag::ExclUnlink => 0x04000000,
            Flag::MaskCreate => 0x10000000,
            Flag::MaskAdd => 0x20000000,
            Flag::Isdir => 0x40000000,
            Flag::Oneshot => 0x80000000,
        }
    }

    /// The name under which this flag is rendered.
    pub fn name(self) -> (r: &'static str)
        ensures
            r@ == flag_name(self),
    {
        match self {
            Flag::Access => "ACCESS",
            Flag::Modify => "MODIFY",
            Flag::Attrib => "ATTRIB",
            Flag::CloseWrite => "CLOSE_WRITE",
            Flag::CloseNowrite => "CLOSE_NOWRITE",
            Flag::Open => "OPEN",
            Flag::MovedFrom => "MOVED_FROM",
            Flag::MovedTo => "MOVED_TO",
            Flag::Create => "CREATE",
            Flag::Delete => "DELETE",
            Flag::DeleteSelf => "DELETE_SELF",
            Flag::MoveSelf => "MOVE_SELF",
            Flag::Unmount => "UNMOUNT",
            Flag::QOverflow => "Q_OVERFLOW",
            Flag::Ignored => "IGNORED",
            Flag::Close => "CLOSE",
            Flag::Move => "MOVE",
            Flag::Onlydir => "ONLYDIR",
            Flag::DontFollow => "DONT_FOLLOW",
            Flag::ExclUnlink => "EXCL_UNLINK",
            Flag::MaskCreate => "MASK_CREATE",
            Flag::MaskAdd => "MASK_ADD",
            Flag::Isdir => "ISDIR",
            Flag::Oneshot => "ONESHOT",
        }
    }
}

/// The flags that rendering lists, in declared order.
fn display_flags() -> (r: Vec<Flag>)
    ensures
        r@ == display_order(),
{
    let r = vec![
        Flag::Access,
        Flag::Modify,
        Flag::Attrib,
        Flag::CloseWrite,
        Flag::CloseNowrite,
        Flag::Open,
        Flag::MovedFrom,
        Flag::MovedTo,
        Flag::Create,
        Flag::Delete,
        Flag::DeleteSelf,
        Flag::MoveSelf,
        Flag::Unmount,
        Flag::QOverflow,
        Flag::Ignored,
        Flag::Onlydir,
        Flag::DontFollow,
        Flag::ExclUnlink,
        Flag::MaskCreate,
        Flag::MaskAdd,
        Flag::Isdir,
        Flag::Oneshot,
    ];
    assert(r@ =~= display_order());
    r
}

/// A set of inotify flags packed into one 32-bit word.
///
/// Union and intersection are plain bitwise operations. Equality between two
/// words looks only at the bits in [`RELEVANT`]: bits that no named flag
/// uses never decide whether two words are equal.
#[derive(Clone, Copy, Debug)]
pub struct Mask(pub(crate) u32);

/// The union of every named flag: equality compares words under this mask.
pub const RELEVANT: u32 = 0xF700EFFF;

/// Equality of two raw words, restricted to the named flags.
pub open spec fn relevant_eq(a: u32, b: u32) -> bool {
    a & RELEVANT == b & RELEVANT
}

/// `a` holds every bit of `b`.
pub open spec fn bits_contain(a: u32, b: u32) -> bool {
    a & b == b
}

impl Mask {
    /// The word that holds exactly the bits of `f`.
    pub fn of(f: Flag) -> (r: Mask)
        ensures
            r@ == flag_bits(f),
    {
        Mask(f.bits())
    }

    /// The raw bits of this word.
    pub closed spec fn view(self) -> u32 {
        self.0
    }

    /// The word with exactly the given bits, as the kernel reports them.
    pub(crate) fn from_raw(bits: u32) -> (r: Mask)
        ensures
            r@ == bits,
    {
        Mask(bits)
    }

    /// The raw bits of this word, as handed to the kernel.
    pub fn bits(self) -> (r: u32)
        ensures
            r == self@,
    {
        self.0
    }

    /// Whether every bit of `other` is also set in `self`.
    pub fn contains(self, other: Mask) -> (r: bool)
        ensures
            r == bits_contain(self@, other@),
    {
        self.0 & other.0 == other.0
    }

    /// Equality restricted to the named flags.
    pub fn equals(self, other: Mask) -> (r: bool)
        ensures
            r == relevant_eq(self@, other@),
    {
        self.0 & RELEVANT == other.0 & RELEVANT
    }

    /// The word with the bits of both.
    pub fn union(self, other: Mask) -> (r: Mask)
        ensures
            r@ == self@ | other@,
    {
        Mask(self.0 | other.0)
    }

    /// The word with the bits common to both.
    pub fn intersection(self, other: Mask) -> (r: Mask)
        ensures
            r@ == self@ & other@,
    {
        Mask(self.0 & other.0)
    }
}

impl PartialEq for Mask {
    fn eq(&self, other: &Mask) -> (r: bool) {
        self.equals(*other)
    }
}

impl vstd::std_specs::cmp::PartialEqSpecImpl for Mask {
    open spec fn obeys_eq_spec() -> bool {
        true
    }

    open spec fn eq_spec(&self, other: &Mask) -> bool {
        relevant_eq(self@, other@)
    }
}

impl std::ops::BitAnd for Mask {
    type Output = Mask;

    fn bitand(self, rhs: Mask) -> (r: Mask)
        ensures
            r@ == self@ & rhs@,
    {
        self.intersection(rhs)
    }
}

impl vstd::std_specs::ops::BitAndSpecImpl for Mask {
    open spec fn obeys_bitand_spec() -> bool {
        true
    }

    open spec fn bitand_req(self, rhs: Mask) -> bool {
        true
    }

    closed spec fn bitand_spec(self, rhs: Mask) -> Mask {
        Mask(self.0 & rhs.0)
    }
}

impl std::ops::BitOr for Mask {
    type Output = Mask;

    fn bitor(self, rhs: Mask) -> (r: Mask)
        ensures
            r@ == self@ | rhs@,
    {
        self.union(rhs)
    }
}

impl vstd::std_specs::ops::BitOrSpecImpl for Mask {
    open spec fn obeys_bitor_spec() -> bool {
        true
    }

    open spec fn bitor_req(self, rhs: Mask) -> bool {
        true
    }

    closed spec fn bitor_spec(self, rhs: Mask) -> Mask {
        Mask(self.0 | rhs.0)
    }
}

impl std::ops::BitAndAssign for Mask {
    fn bitand_assign(&mut self, rhs: Mask)
        ensures
            final(self)@ == old(self)@ & rhs@,
    {
        self.0 = self.0 & rhs.0;
    }
}

impl std::ops::BitOrAssign for Mask {
    fn bitor_assign(&mut self, rhs: Mask)
        ensures
            final(self)@ == old(self)@ | rhs@,
    {
        self.0 = self.0 | rhs.0;
    }
}

/// The digit of a hexadecimal numeral, in upper case.
pub open spec fn hex_char(d: nat) -> char {
    seq!['0', '1', '2', '3', '4', '5', '6', '7', '8', '9', 'A', 'B', 'C', 'D', 'E', 'F'][d as int]
}

/// The hexadecimal numeral of `x`, upper case, without leading zeros.
pub open spec fn hex_digits(x: nat) -> Seq<char>
    decreases x,
{
    if x < 16 {
        seq![hex_char(x)]
    } else {
        hex_digits(x / 16).push(hex_char(x % 16))
    }
}

/// Whether rendering lists flag `f` for the word `m`: `f` has bits, all set in `m`.
pub open spec fn shown(m: u32, f: Flag) -> bool {
    flag_bits(f) != 0 && bits_contain(m, flag_bits(f))
}

/// The names of the flags of `fs` that rendering lists for `m`, in the order of `fs`.
pub open spec fn listed(m: u32, fs: Seq<Flag>) -> Seq<Seq<char>>
    decreases fs.len(),
{
    if fs.len() == 0 {
        seq![]
    } else {
        let rest = listed(m, fs.drop_last());
        if shown(m, fs.last()) {
            rest.push(flag_name(fs.last()))
        } else {
            rest
        }
    }
}

/// The parts, separated by `" | "`.
pub open spec fn joined(parts: Seq<Seq<char>>) -> Seq<char>
    decreases parts.len(),
{
    if parts.len() == 0 {
        seq![]
    } else if parts.len() == 1 {
        parts[0]
    } else {
        joined(parts.drop_last()) + " | "@ + parts.last()
    }
}

/// The text of a word: its hexadecimal value in parentheses, then the names
/// of the flags that it holds.
pub open spec fn rendering(m: u32) -> Seq<char> {
    "("@ + hex_digits(m as nat) + ") "@ + joined(listed(m, display_order()))
}

/// The one-character text of a hexadecimal digit.
fn hex_digit(d: u32) -> (r: &'static str)
    requires
        d < 16,
    ensures
        r@ == seq![hex_char(d as nat)],
{
    proof {
        reveal_strlit("0");
        reveal_strlit("1");
        reveal_strlit("2");
        reveal_strlit("3");
        reveal_strlit("4");
        reveal_strlit("5");
        reveal_strlit("6");
        reveal_strlit("7");
        reveal_strlit("8");
        reveal_strlit("9");
        reveal_strlit("A");
        reveal_strlit("B");
        reveal_strlit("C");
        reveal_strlit("D");
        reveal_strlit("E");
        reveal_strlit("F");
    }
    match d {
        0 => "0",
        1 => "1",
        2 => "2",
        3 => "3",
        4 => "4",
        5 => "5",
        6 => "6",
        7 => "7",
        8 => "8",
        9 => "9",
        10 => "A",
        11 => "B",
        12 => "C",
        13 => "D",
        14 => "E",
        _ => "F",
    }
}

/// Appends the hexadecimal numeral of `x` to `s`.
fn push_hex(s: &mut String, x: u32)
    ensures
        final(s)@ == old(s)@ + hex_digits(x as nat),
    decreases x,
{
    if x >= 16 {
        push_hex(s, x / 16);
    }
    s.append(hex_digit(x % 16));
    assert(hex_digits(x as nat) =~= if x < 16 {
        seq![hex_char(x as nat)]
    } else {
        hex_digits((x / 16) as nat) + seq![hex_char((x % 16) as nat)]
    });
}

impl Mask {
    /// The text of this word: its value in hexadecimal between parentheses,
    /// then the names of the flags that it holds, in declared order,
    /// separated by `" | "`.
    pub fn render(self) -> (r: String)
        ensures
            r@ == rendering(self@),
    {
        let mut s = String::new();
        s.append("(");
        push_hex(&mut s, self.0);
        s.append(") ");
        let ghost head = s@;
        let order = display_flags();
        let mut first = true;
        let mut i: usize = 0;
        while i < order.len()
            invariant
                order@ == display_order(),
                i <= order@.len(),
                s@ == head + joined(listed(self@, order@.take(i as int))),
                first == (listed(self@, order@.take(i as int)).len() == 0),
            decreases order@.len() - i,
        {
            let f = order[i];
            let b = f.bits();
            let ghost before = listed(self@, order@.take(i as int));
            assert(order@.take(i + 1).drop_last() =~= order@.take(i as int));
            if b != 0 && self.0 & b == b {
                if !first {
                    s.append(" | ");
                }
                s.append(f.name());
                first = false;
                let ghost after = listed(self@, order@.take(i + 1));
                assert(after == before.push(flag_name(f)));
                assert(after.drop_last() =~= before);
                assert(s@ =~= head + joined(after));
            }
            i += 1;
        }
        assert(order@.take(order@.len() as int) =~= order@);
        s
    }
}

/// Union holds both of its operands, intersection is held by both of its
/// operands, and every word holds itself.
pub proof fn lemma_union_intersection_contain(a: Mask, b: Mask)
    ensures
        bits_contain(a@ | b@, a@),
        bits_contain(a@ | b@, b@),
        bits_contain(a@, a@ & b@),
        bits_contain(b@, a@ & b@),
        bits_contain(a@, a@),
{
    let x = a@;
    let y = b@;
    assert((x | y) & x == x && (x | y) & y == y) by (bit_vector);
    assert(x & (x & y) == x & y && y & (x & y) == x & y) by (bit_vector);
    assert(x & x == x) by (bit_vector);
}

/// Union and intersection are commutative and associative.
pub proof fn lemma_union_intersection_algebra(a: Mask, b: Mask, c: Mask)
    ensures
        a@ | b@ == b@ | a@,
        a@ & b@ == b@ & a@,
        (a@ | b@) | c@ == a@ | (b@ | c@),
        (a@ & b@) & c@ == a@ & (b@ & c@),
{
    let x = a@;
    let y = b@;
    let z = c@;
    assert(x | y == y | x && x & y == y & x) by (bit_vector);
    assert((x | y) | z == x | (y | z) && (x & y) & z == x & (y & z)) by (bit_vector);
}

/// Every word equals itself, and setting, clearing or toggling bits that no
/// named flag uses never changes whether two words are equal.
pub proof fn lemma_equality_ignores_unnamed_bits(a: Mask, b: Mask, t: u32)
    requires
        t & RELEVANT == 0,
    ensures
        relevant_eq(a@, a@),
        relevant_eq(a@ ^ t, b@) == relevant_eq(a@, b@),
        relevant_eq(a@ | t, b@) == relevant_eq(a@, b@),
        relevant_eq(a@ & !t, b@) == relevant_eq(a@, b@),
{
    let x = a@;
    let y = b@;
    assert((x ^ t) & RELEVANT == x & RELEVANT) by (bit_vector)
        requires
            t & RELEVANT == 0,
    ;
    assert((x | t) & RELEVANT == x & RELEVANT) by (bit_vector)
        requires
            t & RELEVANT == 0,
    ;
    assert((x & !t) & RELEVANT == x & RELEVANT) by (bit_vector)
        requires
            t & RELEVANT == 0,
    ;
}

} // verus!
