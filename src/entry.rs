use vstd::prelude::*;

verus! {

/// The two little-endian bytes of `x`.
pub open spec fn u16_le(x: u16) -> Seq<u8> {
    seq![x as u8, (x >> 8) as u8]
}

/// The four little-endian bytes of `x`.
pub open spec fn u32_le(x: u32) -> Seq<u8> {
    seq![x as u8, (x >> 8) as u8, (x >> 16) as u8, (x >> 24) as u8]
}

/// The eight little-endian bytes of `x`.
pub open spec fn u64_le(x: u64) -> Seq<u8> {
    seq![
        x as u8,
        (x >> 8) as u8,
        (x >> 16) as u8,
        (x >> 24) as u8,
        (x >> 32) as u8,
        (x >> 40) as u8,
        (x >> 48) as u8,
        (x >> 56) as u8,
    ]
}

/// The value of four little-endian bytes.
pub open spec fn u32_from_le(b: Seq<u8>) -> u32 {
    (b[0] as u32) | ((b[1] as u32) << 8) | ((b[2] as u32) << 16) | ((b[3] as u32) << 24)
}

/// The value of eight little-endian bytes.
pub open spec fn u64_from_le(b: Seq<u8>) -> u64 {
    (b[0] as u64) | ((b[1] as u64) << 8) | ((b[2] as u64) << 16) | ((b[3] as u64) << 24) | ((b[4] as u64)
        << 32) | ((b[5] as u64) << 40) | ((b[6] as u64) << 48) | ((b[7] as u64) << 56)
}

/// Eight bytes written little-endian read back as the value written.
pub proof fn lemma_u64_le_round_trip(x: u64)
    ensures
        u64_from_le(u64_le(x)) == x,
{
    let b = u64_le(x);
    assert(b[0] == x as u8 && b[1] == (x >> 8) as u8 && b[2] == (x >> 16) as u8 && b[3] == (x >> 24) as u8);
    assert(b[4] == (x >> 32) as u8 && b[5] == (x >> 40) as u8 && b[6] == (x >> 48) as u8 && b[7] == (x >> 56) as u8);
    assert(((x as u8) as u64) | ((((x >> 8) as u8) as u64) << 8) | ((((x >> 16) as u8) as u64) << 16) | ((((x
        >> 24) as u8) as u64) << 24) | ((((x >> 32) as u8) as u64) << 32) | ((((x >> 40) as u8) as u64) << 40)
        | ((((x >> 48) as u8) as u64) << 48) | ((((x >> 56) as u8) as u64) << 56) == x) by (bit_vector);
}

/// The operation-specific word of a submission entry, by the operation it
/// belongs to. On the wire the four share one 32-bit slot.
#[derive(Clone, Copy, Debug, PartialEq, Eq, Structural)]
pub enum OpArg {
    RwFlags(i32),
    FsyncFlags(u32),
    PollEvents(u16),
    SyncRangeFlags(u32),
}

/// The wire form of an operation-specific word.
pub open spec fn op_arg_word(a: OpArg) -> u32 {
    match a {
        OpArg::RwFlags(f) => f as u32,
        OpArg::FsyncFlags(f) => f,
        OpArg::PollEvents(e) => e as u32,
        OpArg::SyncRangeFlags(f) => f,
    }
}

impl OpArg {
    /// The 32-bit word this argument occupies in an entry.
    pub fn word(&self) -> (r: u32)
        ensures
            r == op_arg_word(*self),
    {
        match *self {
            OpArg::RwFlags(f) => f as u32,
            OpArg::FsyncFlags(f) => f,
            OpArg::PollEvents(e) => e as u32,
            OpArg::SyncRangeFlags(f) => f,
        }
    }
}

/// Bytes of a submission entry past its buffer index, all zero.
pub open spec fn sqe_padding() -> Seq<u8> {
    Seq::new(22, |i: int| 0u8)
}

/// A submission entry: the operation, its flags and priority, the target
/// descriptor, offset, buffer address and length, the operation-specific
/// word, the caller's tag, and the index of a preregistered buffer.
#[derive(Clone, Copy, Debug, PartialEq, Eq, Structural)]
pub struct Sqe {
    pub opcode: u8,
    pub flags: u8,
    pub ioprio: u16,
    pub fd: i32,
    pub off: u64,
    pub addr: u64,
    pub len: u32,
    pub arg: OpArg,
    pub user_data: u64,
    pub buf_index: u16,
}

/// The 64 bytes of a submission entry, as the kernel reads them.
pub open spec fn sqe_bytes(e: Sqe) -> Seq<u8> {
    seq![e.opcode, e.flags] + u16_le(e.ioprio) + u32_le(e.fd as u32) + u64_le(e.off) + u64_le(e.addr) + u32_le(
        e.len,
    ) + u32_le(op_arg_word(e.arg)) + u64_le(e.user_data) + u16_le(e.buf_index) + sqe_padding()
}

fn push_u16(v: &mut Vec<u8>, x: u16)
    ensures
        final(v)@ == old(v)@ + u16_le(x),
{
    v.push(x as u8);
    v.push((x >> 8) as u8);
    assert(v@ =~= old(v)@ + u16_le(x));
}

fn push_u32(v: &mut Vec<u8>, x: u32)
    ensures
        final(v)@ == old(v)@ + u32_le(x),
{
    v.push(x as u8);
    v.push((x >> 8) as u8);
    v.push((x >> 16) as u8);
    v.push((x >> 24) as u8);
    assert(v@ =~= old(v)@ + u32_le(x));
}

fn push_u64(v: &mut Vec<u8>, x: u64)
    ensures
        final(v)@ == old(v)@ + u64_le(x),
{
    v.push(x as u8);
    v.push((x >> 8) as u8);
    v.push((x >> 16) as u8);
    v.push((x >> 24) as u8);
    v.push((x >> 32) as u8);
    v.push((x >> 40) as u8);
    v.push((x >> 48) as u8);
    v.push((x >> 56) as u8);
    assert(v@ =~= old(v)@ + u64_le(x));
}

impl Sqe {
    /// The entry in its wire form, ready to be copied into a slot of the
    /// mapped entry array.
    pub fn to_bytes(&self) -> (r: Vec<u8>)
        ensures
            r@ == sqe_bytes(*self),
            r@.len() == 64,
            r@.subrange(32, 40) == u64_le(self.user_data),
    {
        let mut v: Vec<u8> = Vec::new();
        v.push(self.opcode);
        v.push(self.flags);
        push_u16(&mut v, self.ioprio);
        push_u32(&mut v, self.fd as u32);
        push_u64(&mut v, self.off);
        push_u64(&mut v, self.addr);
        push_u32(&mut v, self.len);
        let word = self.arg.word();
        push_u32(&mut v, word);
        push_u64(&mut v, self.user_data);
        push_u16(&mut v, self.buf_index);
        let ghost head = v@;
        let mut i: usize = 0;
        while i < 22
            invariant
                i <= 22,
                v@ == head + Seq::new(i as nat, |k: int| 0u8),
            decreases 22 - i,
        {
            v.push(0u8);
            i = i + 1;
            assert(v@ =~= head + Seq::new(i as nat, |k: int| 0u8));
        }
        assert(v@ =~= sqe_bytes(*self));
        assert(v@.subrange(32, 40) =~= u64_le(self.user_data));
        v
    }
}

/// A completion entry: the tag of the submission it answers, the
/// operation's result, and flags.
#[derive(Clone, Copy, Debug, PartialEq, Eq, Structural)]
pub struct Cqe {
    pub user_data: u64,
    pub res: i32,
    pub flags: u32,
}

/// The completion entry that 16 wire bytes hold.
pub open spec fn cqe_of(b: Seq<u8>) -> Cqe {
    Cqe {
        user_data: u64_from_le(b.subrange(0, 8)),
        res: u32_from_le(b.subrange(8, 12)) as i32,
        flags: u32_from_le(b.subrange(12, 16)),
    }
}

fn read_u32(b: &[u8], at: usize) -> (r: u32)
    requires
        at + 4 <= b@.len(),
    ensures
        r == u32_from_le(b@.subrange(at as int, at + 4)),
{
    (b[at] as u32) | ((b[at + 1] as u32) << 8) | ((b[at + 2] as u32) << 16) | ((b[at + 3] as u32) << 24)
}

fn read_u64(b: &[u8], at: usize) -> (r: u64)
    requires
        at + 8 <= b@.len(),
    ensures
        r == u64_from_le(b@.subrange(at as int, at + 8)),
{
    (b[at] as u64) | ((b[at + 1] as u64) << 8) | ((b[at + 2] as u64) << 16) | ((b[at + 3] as u64) << 24) | ((b[at
        + 4] as u64) << 32) | ((b[at + 5] as u64) << 40) | ((b[at + 6] as u64) << 48) | ((b[at + 7] as u64)
        << 56)
}

impl Cqe {
    /// Reads a completion entry from its wire form; `None` unless `b` is
    /// exactly one entry long.
    pub fn from_bytes(b: &[u8]) -> (r: Option<Cqe>)
        ensures
            r == (if b@.len() == 16 { Some(cqe_of(b@)) } else { None::<Cqe> }),
    {
        if b.len() != 16 {
            return None;
        }
        let user_data = read_u64(b, 0);
        let res = read_u32(b, 8) as i32;
        let flags = read_u32(b, 12);
        Some(Cqe { user_data, res, flags })
    }
}

/// The tag of a submission entry comes back unchanged in a completion entry
/// whose tag bytes are the ones the submission carried.
pub proof fn lemma_user_tag_echo(e: Sqe, cqe: Seq<u8>)
    requires
        cqe.len() == 16,
        cqe.subrange(0, 8) == sqe_bytes(e).subrange(32, 40),
    ensures
        cqe_of(cqe).user_data == e.user_data,
{
    let b = sqe_bytes(e);
    assert(b.subrange(32, 40) =~= u64_le(e.user_data));
    lemma_u64_le_round_trip(e.user_data);
}

} // verus!
