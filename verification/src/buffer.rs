//! Growable GPU buffers that are filled with 16-bit data while every write
//! they send stays aligned to wgpu's four-byte copy alignment.

use std::sync::Arc;
use vstd::prelude::*;

use crate::gpu::{
    buffer_mapped, buffer_on, buffer_size, buffer_usage, copy_into_new_buffer, create_buffer, gpu_buffer_size,
    gpu_buffer_usage, gpu_halfwords, overwrite, usage_supported, words_as_halfwords, write_halfwords, write_words,
    MAX_BUFFER_SIZE, USAGE_COPY_DST, USAGE_COPY_SRC,
};
use crate::GpuContext;

verus! {

/// Size in bytes that every buffer starts with.
pub const INITIAL_BUFFER_SIZE: u64 = 256;

/// The halfword written after data that ends halfway through a four-byte
/// word: the bytes `[67, 67]`.
pub const PADDING_HALFWORD: u16 = 0x4343;

/// `n` is a power of two.
pub open spec fn is_power_of_two(n: int) -> bool
    decreases n,
{
    if n <= 0 {
        false
    } else if n == 1 {
        true
    } else {
        n % 2 == 0 && is_power_of_two(n / 2)
    }
}

/// `p` is the smallest power of two that is at least `x`.
pub open spec fn is_next_power_of_two(p: int, x: int) -> bool {
    &&& is_power_of_two(p)
    &&& x <= p
    &&& (p == 1 || p / 2 < x)
}

/// `x` rounded up to a multiple of four.
pub open spec fn round_up4(x: int) -> int {
    if x % 4 == 0 { x } else { x + (4 - x % 4) }
}

/// Bytes by which the next write starts before the used region ends, to
/// begin at an aligned offset.
pub open spec fn lead(bytes_used: int) -> int {
    bytes_used % 4
}

/// Bytes of padding after `n` halfwords of data written from an aligned offset.
pub open spec fn tail(bytes_used: int, n: int) -> int {
    (2 * n + lead(bytes_used)) % 4
}

/// Size in bytes of the write that appends `n` halfwords.
pub open spec fn write_size(bytes_used: int, n: int) -> int {
    2 * n + lead(bytes_used) + tail(bytes_used, n)
}

/// Byte offset at which the write that appends starts.
pub open spec fn write_offset(bytes_used: int) -> int {
    bytes_used - lead(bytes_used)
}

/// The size that an append of `n` halfwords asks the buffer for.
pub open spec fn target_size(bytes_used: int, n: int) -> int {
    write_size(bytes_used, n) + bytes_used
}

/// The halfwords that the write appending `data` sends: the halfword already
/// stored at the start of a half-filled word, the data, and padding up to
/// the next word boundary.
pub open spec fn staged_halfwords(bytes_used: int, last_index: u16, data: Seq<u16>) -> Seq<u16> {
    (if lead(bytes_used) == 0 { Seq::<u16>::empty() } else { seq![last_index] })
        + data
        + (if tail(bytes_used, data.len() as int) != 0 { seq![PADDING_HALFWORD] } else { Seq::<u16>::empty() })
}

/// The halfword remembered after appending `data`: the last one of `data`
/// when the data ends halfway through a word, the old one otherwise.
pub open spec fn next_last_index(bytes_used: int, last_index: u16, data: Seq<u16>) -> u16 {
    if tail(bytes_used, data.len() as int) != 0 { data.last() } else { last_index }
}

/// An append of `n` halfwords can be assembled: there is data, the used
/// region is a whole number of halfwords, and the data does not both start
/// and end halfway through a word.
pub open spec fn appendable(bytes_used: int, n: int) -> bool {
    &&& n > 0
    &&& bytes_used % 2 == 0
    &&& !(lead(bytes_used) != 0 && tail(bytes_used, n) != 0)
}

/// The size a buffer of `size` bytes is reallocated to when an append asks
/// for `target` bytes.
pub open spec fn grown_size(target: int, size: int) -> int {
    let p = choose|p: int| #[trigger] is_next_power_of_two(p, size + 1);
    if target > p { target } else { p }
}

/// Of two powers of two, the smaller one at most halves the larger one.
proof fn lemma_powers_of_two_ordered(p: int, q: int)
    requires
        is_power_of_two(p),
        is_power_of_two(q),
        p < q,
    ensures
        2 * p <= q,
    decreases q,
{
    if p > 1 {
        lemma_powers_of_two_ordered(p / 2, q / 2);
    } else {
        assert(q >= 2);
    }
}

/// The largest power of two that a `u64` holds.
proof fn lemma_top_power_of_two()
    ensures
        is_power_of_two(0x8000_0000_0000_0000),
{
    reveal_with_fuel(is_power_of_two, 65);
}

/// There is one smallest power of two at least `x`.
pub proof fn lemma_next_power_of_two_unique(p: int, q: int, x: int)
    requires
        is_next_power_of_two(p, x),
        is_next_power_of_two(q, x),
    ensures
        p == q,
{
    if p < q {
        lemma_powers_of_two_ordered(p, q);
    } else if q < p {
        lemma_powers_of_two_ordered(q, p);
    }
}

/// The smallest power of two at least `x`, computed by doubling.
pub fn next_power_of_two(x: u64) -> (p: u64)
    requires
        x <= 0x8000_0000_0000_0000,
    ensures
        is_next_power_of_two(p as int, x as int),
{
    let mut p: u64 = 1;
    while p < x
        invariant
            is_power_of_two(p as int),
            p >= 1,
            p == 1 || p / 2 < x,
            x <= 0x8000_0000_0000_0000,
            p <= 0x8000_0000_0000_0000,
        decreases 0x1_0000_0000_0000_0000 - p,
    {
        proof {
            lemma_top_power_of_two();
            if p == 0x8000_0000_0000_0000 {
            } else {
                lemma_powers_of_two_ordered(p as int, 0x8000_0000_0000_0000);
            }
        }
        assert((2 * p) / 2 == p);
        p = 2 * p;
    }
    p
}

/// The size a buffer of `size` bytes is reallocated to when an append asks
/// for `target` bytes: the larger of `target` and the smallest power of two
/// above `size`.
pub fn reallocation_size(target: u64, size: u64) -> (new_size: u64)
    requires
        size < 0x8000_0000_0000_0000,
    ensures
        new_size == grown_size(target as int, size as int),
        new_size > size,
        new_size >= target,
{
    let p = next_power_of_two(size + 1);
    proof {
        let q = choose|q: int| #[trigger] is_next_power_of_two(q, size + 1);
        lemma_next_power_of_two_unique(p as int, q, size + 1);
    }
    if target > p { target } else { p }
}

/// Number of bytes that reallocation carries over: the used bytes rounded up
/// to the copy alignment.
pub fn copy_size(bytes_used: u64) -> (size: u64)
    requires
        bytes_used <= u64::MAX - 3,
    ensures
        size == round_up4(bytes_used as int),
{
    let rem: u64 = bytes_used % 4;
    if rem == 0 { bytes_used } else { bytes_used + (4 - rem) }
}

/// Where an append of `data` is sent, and what the buffer remembers after it.
pub struct AppendPlan {
    /// Byte offset of the write.
    pub offset: u64,
    /// The halfwords written from `offset` on.
    pub halfwords: Vec<u16>,
    /// The size in bytes the append asks the buffer for.
    pub target_size: u64,
    /// The halfword to remember for the next append.
    pub last_index: u16,
}

/// Assembles the aligned write that appends `data` after `bytes_used` bytes,
/// given the halfword `last_index` stored just before them.
pub fn plan_append(bytes_used: u64, last_index: u16, data: &[u16]) -> (plan: AppendPlan)
    requires
        appendable(bytes_used as int, data.len() as int),
        bytes_used + 2 * data.len() + 4 <= u64::MAX,
    ensures
        plan.offset == write_offset(bytes_used as int),
        plan.halfwords@ == staged_halfwords(bytes_used as int, last_index, data@),
        plan.target_size == target_size(bytes_used as int, data.len() as int),
        plan.last_index == next_last_index(bytes_used as int, last_index, data@),
{
    let data_len: u64 = 2 * (data.len() as u64);
    let alignment_start: u64 = bytes_used % 4;
    let alignment_end: u64 = (data_len + alignment_start) % 4;
    let write_size: u64 = data_len + alignment_start + alignment_end;
    let mut halfwords: Vec<u16> = Vec::new();
    if alignment_start != 0 {
        halfwords.push(last_index);
    }
    let ghost prefix = halfwords@;
    let mut i: usize = 0;
    while i < data.len()
        invariant
            i <= data.len(),
            halfwords@ == prefix + data@.take(i as int),
        decreases data.len() - i,
    {
        halfwords.push(data[i]);
        i = i + 1;
        assert(data@.take(i as int) == data@.take(i - 1).push(data@[i - 1]));
    }
    assert(data@.take(data.len() as int) == data@);
    let mut next_last = last_index;
    if alignment_end != 0 {
        halfwords.push(PADDING_HALFWORD);
        next_last = data[data.len() - 1];
    }
    AppendPlan {
        offset: bytes_used - alignment_start,
        halfwords,
        target_size: write_size + bytes_used,
        last_index: next_last,
    }
}

/// Every write an append sends starts at a multiple of the copy alignment
/// and covers a whole number of aligned words.
pub proof fn lemma_append_write_aligned(bytes_used: int, n: int)
    requires
        bytes_used >= 0,
        appendable(bytes_used, n),
    ensures
        write_offset(bytes_used) % 4 == 0,
        write_size(bytes_used, n) % 4 == 0,
        write_offset(bytes_used) + write_size(bytes_used, n) == round_up4(bytes_used + 2 * n),
        staged_halfwords(bytes_used, 0, Seq::new(n as nat, |i: int| 0u16)).len() * 2 == write_size(bytes_used, n),
{
}

/// Appending twice to a buffer whose remembered halfword is consistent reads
/// back as the two pieces of data in order after what was there.
pub proof fn lemma_appends_concatenate(b0: GpuBuffer, b1: GpuBuffer, b2: GpuBuffer, d1: Seq<u16>, d2: Seq<u16>)
    requires
        b0.remembers_last_halfword(),
        appended(b0, b1, d1),
        appended(b1, b2, d2),
    ensures
        b2@ == b0@ + d1 + d2,
        b2.bytes_used == b0.bytes_used + 2 * (d1.len() + d2.len()),
        b2.capacity() >= b0.capacity(),
{
    assert(b2@ =~= b0@ + d1 + d2);
}

/// Halfwords of a freshly created buffer of `size` bytes.
pub open spec fn zeroed(size: int) -> Seq<u16> {
    Seq::new((size / 2) as nat, |i: int| 0u16)
}

/// A buffer on the GPU that 16-bit data is appended to. It remembers how many
/// bytes are in use and the halfword that starts a half-filled last word, and
/// grows by reallocating and copying.
pub struct GpuBuffer {
    pub buffer: wgpu::Buffer,
    pub bytes_used: u64,
    pub last_index: u16,
    pub gpu: Arc<GpuContext>,
}

/// `after` is `before` with `data` appended: the effect of `GpuBuffer::append`.
pub open spec fn appended(before: GpuBuffer, after: GpuBuffer, data: Seq<u16>) -> bool {
    let n = data.len() as int;
    let used = before.bytes_used as int;
    &&& after.wf()
    &&& after.remembers_last_halfword()
    &&& after.gpu == before.gpu
    &&& after.bytes_used == used + 2 * n
    &&& after.usage() == before.usage()
    &&& after.capacity() == before.capacity_after_append(n)
    &&& after.capacity() >= before.capacity()
    &&& after.remembered_halfword() == next_last_index(used, before.remembered_halfword(), data)
    &&& after.contents() == overwrite(
        before.contents_before_write(n),
        write_offset(used) / 2,
        staged_halfwords(used, before.remembered_halfword(), data),
    )
    &&& after@ == (if lead(used) == 0 {
        before@
    } else {
        before@.update(used / 2 - 1, before.remembered_halfword())
    }) + data
    &&& before.remembers_last_halfword() ==> after@ == before@ + data
}

impl View for GpuBuffer {
    type V = Seq<u16>;

    /// The data appended so far: the halfwords of the used bytes.
    open spec fn view(&self) -> Seq<u16> {
        self.contents().take((self.bytes_used / 2) as int)
    }
}

impl GpuBuffer {
    /// All the halfwords the GPU buffer holds.
    pub open spec fn contents(&self) -> Seq<u16> {
        gpu_halfwords(self.buffer)
    }

    /// The size in bytes of the GPU buffer.
    pub open spec fn capacity(&self) -> int {
        gpu_buffer_size(self.buffer) as int
    }

    /// The usage bits of the GPU buffer.
    pub open spec fn usage(&self) -> u32 {
        gpu_buffer_usage(self.buffer)
    }

    /// The halfword remembered for the next append.
    pub open spec fn remembered_halfword(&self) -> u16 {
        self.last_index
    }

    /// The GPU buffer is an unmapped buffer of the buffer's device, and the
    /// buffer's bookkeeping agrees with it.
    pub open spec fn wf(&self) -> bool {
        &&& self.gpu.wf()
        &&& buffer_on(self.buffer, self.gpu.device)
        &&& !buffer_mapped(self.buffer)
        &&& self.bytes_used % 2 == 0
        &&& round_up4(self.bytes_used as int) <= self.capacity()
        &&& INITIAL_BUFFER_SIZE <= self.capacity() <= MAX_BUFFER_SIZE
        &&& self.contents().len() == self.capacity() / 2
        &&& usage_supported(self.usage())
        &&& self.usage() & USAGE_COPY_SRC != 0
        &&& self.usage() & USAGE_COPY_DST != 0
    }

    /// The remembered halfword is the one stored at the start of a
    /// half-filled last word.
    pub open spec fn remembers_last_halfword(&self) -> bool {
        self.bytes_used % 4 == 2 ==> self.remembered_halfword() == self.contents()[self.bytes_used / 2 - 1]
    }

    /// The contents the GPU buffer has before the write of an append of `n`
    /// halfwords: reallocated, with the used words copied over, when the
    /// target size is below the current size.
    pub open spec fn contents_before_write(&self, n: int) -> Seq<u16> {
        let target = target_size(self.bytes_used as int, n);
        if target < self.capacity() {
            overwrite(
                zeroed(grown_size(target, self.capacity())),
                0,
                self.contents().take(round_up4(self.bytes_used as int) / 2),
            )
        } else {
            self.contents()
        }
    }

    /// The capacity after an append of `n` halfwords.
    pub open spec fn capacity_after_append(&self, n: int) -> int {
        let target = target_size(self.bytes_used as int, n);
        if target < self.capacity() { grown_size(target, self.capacity()) } else { self.capacity() }
    }

    /// An append of `n` halfwords goes through: it can be assembled, and the
    /// write fits the buffer as it is, or the grown buffer fits the device.
    pub open spec fn can_append(&self, n: int) -> bool {
        &&& appendable(self.bytes_used as int, n)
        &&& self.bytes_used + 2 * n + 4 <= u64::MAX
        &&& {
            let target = target_size(self.bytes_used as int, n);
            if target < self.capacity() {
                grown_size(target, self.capacity()) <= MAX_BUFFER_SIZE
            } else {
                target - lead(self.bytes_used as int) <= self.capacity()
            }
        }
    }

    /// Creates an empty buffer of the initial size with the given usage and
    /// both copy usages.
    pub fn new(gpu: Arc<GpuContext>, usage: u32) -> (buffer: Self)
        requires
            gpu.wf(),
            usage_supported(usage | USAGE_COPY_DST | USAGE_COPY_SRC),
        ensures
            buffer.wf(),
            buffer.gpu == gpu,
            !buffer_mapped(buffer.buffer),
            buffer.remembers_last_halfword(),
            buffer.bytes_used == 0,
            buffer.capacity() == INITIAL_BUFFER_SIZE,
            buffer.usage() == usage | USAGE_COPY_DST | USAGE_COPY_SRC,
            buffer.contents() == zeroed(INITIAL_BUFFER_SIZE as int),
            buffer@ == Seq::<u16>::empty(),
    {
        let full_usage: u32 = usage | USAGE_COPY_DST | USAGE_COPY_SRC;
        assert(full_usage & USAGE_COPY_SRC != 0 && full_usage & USAGE_COPY_DST != 0) by (bit_vector)
            requires
                full_usage == usage | 8u32 | 4u32,
        ;
        let buffer = create_buffer(&gpu, INITIAL_BUFFER_SIZE, full_usage);
        GpuBuffer { buffer, bytes_used: 0, last_index: 0, gpu }
    }

    /// Tests `can_append`.
    pub fn can_append_len(&self, n: usize) -> (ok: bool)
        requires
            self.wf(),
        ensures
            ok == self.can_append(n as int),
    {
        if n == 0 || self.bytes_used % 2 != 0 {
            return false;
        }
        if self.bytes_used > u64::MAX - 4 || (n as u64) > (u64::MAX - 4 - self.bytes_used) / 2 {
            return false;
        }
        let data_len: u64 = 2 * (n as u64);
        let alignment_start: u64 = self.bytes_used % 4;
        let alignment_end: u64 = (data_len + alignment_start) % 4;
        if alignment_start != 0 && alignment_end != 0 {
            return false;
        }
        let target: u64 = data_len + alignment_start + alignment_end + self.bytes_used;
        let size = buffer_size(&self.buffer);
        if target < size {
            reallocation_size(target, size) <= MAX_BUFFER_SIZE
        } else {
            target - alignment_start <= size
        }
    }

    /// Moves the data to a new, larger GPU buffer: the larger of `target_size`
    /// and the next power of two above the current size.
    fn reallocate_buffer(&mut self, target_size: u64)
        requires
            old(self).wf(),
            grown_size(target_size as int, old(self).capacity()) <= MAX_BUFFER_SIZE,
        ensures
            final(self).bytes_used == old(self).bytes_used,
            final(self).gpu == old(self).gpu,
            buffer_on(final(self).buffer, final(self).gpu.device),
            !buffer_mapped(final(self).buffer),
            final(self).remembered_halfword() == old(self).remembered_halfword(),
            final(self).usage() == old(self).usage(),
            final(self).capacity() == grown_size(target_size as int, old(self).capacity()),
            final(self).capacity() > old(self).capacity(),
            final(self).contents() == overwrite(
                zeroed(grown_size(target_size as int, old(self).capacity())),
                0,
                old(self).contents().take(round_up4(old(self).bytes_used as int) / 2),
            ),
    {
        let size = buffer_size(&self.buffer);
        let new_size = reallocation_size(target_size, size);
        let buffer_usage = buffer_usage(&self.buffer);
        let used = copy_size(self.bytes_used);
        self.buffer = copy_into_new_buffer(&self.gpu, &self.buffer, new_size, buffer_usage, used);
    }

    /// Appends `data_u16` after the used bytes. The write starts at the
    /// aligned offset before them, resending the remembered halfword when the
    /// used bytes end halfway through a word, and ends with a padding halfword
    /// when the data does; the buffer is reallocated first when the size the
    /// append asks for is below its current size.
    pub fn append(&mut self, data_u16: &[u16])
        requires
            old(self).wf(),
            old(self).can_append(data_u16.len() as int),
        ensures
            appended(*old(self), *final(self), data_u16@),
    {
        let plan = plan_append(self.bytes_used, self.last_index, data_u16);
        let size = buffer_size(&self.buffer);
        if plan.target_size < size {
            self.reallocate_buffer(plan.target_size);
        }
        proof {
            lemma_append_write_aligned(self.bytes_used as int, data_u16.len() as int);
        }
        write_halfwords(&self.gpu, &mut self.buffer, plan.offset, plan.halfwords.as_slice());
        self.last_index = plan.last_index;
        self.bytes_used = self.bytes_used + 2 * (data_u16.len() as u64);
        proof {
            let used = old(self).bytes_used as int;
            let before_view = if lead(used) == 0 {
                old(self)@
            } else {
                old(self)@.update(used / 2 - 1, old(self).remembered_halfword())
            };
            assert(self@ =~= before_view + data_u16@);
            if old(self).remembers_last_halfword() {
                assert(self@ =~= old(self)@ + data_u16@);
            }
        }
    }

    /// Writes `new_data` over the buffer from byte `offset` on, leaving the
    /// used-byte count and the remembered halfword as they are.
    pub fn update_aligned(&mut self, offset: u32, new_data: &[u32])
        requires
            old(self).wf(),
            offset % 4 == 0,
            offset + 4 * new_data.len() <= old(self).capacity(),
        ensures
            final(self).wf(),
            final(self).gpu == old(self).gpu,
            final(self).bytes_used == old(self).bytes_used,
            final(self).remembered_halfword() == old(self).remembered_halfword(),
            final(self).usage() == old(self).usage(),
            final(self).capacity() == old(self).capacity(),
            exists|low_first: bool|
                final(self).contents() == overwrite(
                    old(self).contents(),
                    (offset / 2) as int,
                    #[trigger] words_as_halfwords(low_first, new_data@),
                ),
    {
        write_words(&self.gpu, &mut self.buffer, offset as u64, new_data);
    }
}

} // verus!
