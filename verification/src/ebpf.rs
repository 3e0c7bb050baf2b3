//! The records that the kernel probes emit, and the arithmetic that fills
//! them from what the probes read.
use vstd::prelude::*;

verus! {

/// A block I/O request, issued, completed or queued.
#[derive(Clone, Copy)]
pub struct DiskIOEvent {
    pub pid: u32,
    pub comm: [u8; 16],
    pub device_major: u32,
    pub device_minor: u32,
    pub operation: u8,
    pub sector: u64,
    pub num_sectors: u32,
    pub bytes: u64,
    pub latency_ns: u64,
    pub timestamp: u64,
}

/// A file opened, read, written or closed.
#[derive(Clone, Copy)]
pub struct FilesystemEvent {
    pub event_type: u32,
    pub pid: u32,
    pub fd: u32,
    pub filename: [u8; 255],
    pub bytes_transferred: u64,
    pub operation: u8,
}

/// A kernel memory allocation or release.
#[derive(Clone, Copy)]
pub struct MemoryEvent {
    pub pid: u32,
    pub comm: [u8; 16],
    pub event_type: u32,
    pub size: u64,
    pub rss_bytes: u64,
    pub vms_bytes: u64,
    pub shared_bytes: u64,
    pub timestamp: u64,
}

/// A TCP connection, send or receive.
#[derive(Clone, Copy)]
pub struct NetworkEvent {
    pub event_type: u32,
    pub pid: u32,
    pub comm: [u8; 16],
    pub src_addr: u32,
    pub dst_addr: u32,
    pub src_port: u16,
    pub dst_port: u16,
    pub protocol: u8,
    pub bytes_sent: u64,
    pub bytes_received: u64,
}

/// A process started or ended.
#[derive(Clone, Copy)]
pub struct ProcessEvent {
    pub pid: u32,
    pub ppid: u32,
    pub uid: u32,
    pub gid: u32,
    pub comm: [u8; 16],
    pub cmdline: [u8; 256],
    pub event_type: u32,
}

/// The upper half of a 64-bit word, such as the thread-group id of a
/// `pid_tgid` or the user id of a `uid_gid`.
pub fn upper_half(x: u64) -> (r: u32)
    ensures
        r == x / 0x1_0000_0000,
{
    let r = (x >> 32u64) as u32;
    proof {
        assert((x >> 32u64) as u32 == x / 0x1_0000_0000) by (bit_vector);
    }
    r
}

/// The lower half of a 64-bit word, such as the thread id of a
/// `pid_tgid` or the group id of a `uid_gid`.
pub fn lower_half(x: u64) -> (r: u32)
    ensures
        r == x % 0x1_0000_0000,
{
    let r = (x & 0xFFFF_FFFFu64) as u32;
    proof {
        assert((x & 0xFFFF_FFFFu64) as u32 == x % 0x1_0000_0000) by (bit_vector);
    }
    r
}

/// The major and minor numbers of a block device: the top twelve and the
/// low twenty bits.
pub fn split_device(dev: u32) -> (r: (u32, u32))
    ensures
        r.0 == dev / 0x10_0000,
        r.1 == dev % 0x10_0000,
        r.0 * 0x10_0000 + r.1 == dev,
{
    let major = dev >> 20u32;
    let minor = dev & 0xFFFFFu32;
    proof {
        assert(dev >> 20u32 == dev / 0x10_0000) by (bit_vector);
        assert(dev & 0xFFFFFu32 == dev % 0x10_0000) by (bit_vector);
    }
    (major, minor)
}

/// Bytes in a number of 512-byte sectors.
pub fn sector_bytes(num_sectors: u32) -> (b: u64)
    ensures
        b == num_sectors * 512,
{
    (num_sectors as u64) * 512
}

/// The latency of a request that started at `start` (0 when the start is
/// unknown) and completed at `now`, in nanoseconds.
pub fn io_latency(now: u64, start: u64) -> (l: u64)
    ensures
        start == 0 ==> l == 0,
        start > 0 && now >= start ==> l == now - start,
        start > 0 && now < start ==> l == 0,
{
    if start > 0 {
        if now >= start { now - start } else { 0 }
    } else {
        0
    }
}

/// Bytes in an allocation of 2^order pages of 4096 bytes.
pub fn page_allocation_bytes(order: u32) -> (b: u64)
    requires
        order <= 51,
    ensures
        b == vstd::arithmetic::power2::pow2((order + 12) as nat),
{
    let sh: u64 = order as u64;
    proof {
        vstd::arithmetic::power2::lemma2_to64();
        vstd::arithmetic::power2::lemma_pow2_strictly_increases(order as nat, 64);
        vstd::bits::lemma_u64_shl_is_mul(1u64, sh);
        vstd::arithmetic::power2::lemma_pow2_adds(order as nat, 12);
        vstd::arithmetic::power2::lemma_pow2_strictly_increases((order + 12) as nat, 64);
    }
    let pages: u64 = 1u64 << sh;
    pages * 4096
}

/// The completion of a block I/O request.
pub fn disk_io_completed(
    pid_tgid: u64,
    comm: [u8; 16],
    dev: u32,
    sector: u64,
    num_sectors: u32,
    operation: u8,
    now: u64,
    start: u64,
) -> (e: DiskIOEvent)
    ensures
        e.pid == pid_tgid / 0x1_0000_0000,
        e.comm == comm,
        e.device_major == dev / 0x10_0000,
        e.device_minor == dev % 0x10_0000,
        e.operation == operation,
        e.sector == sector,
        e.num_sectors == num_sectors,
        e.bytes == num_sectors * 512,
        e.latency_ns == (if start > 0 && now >= start { now - start } else { 0 }),
        e.timestamp == now,
{
    let (device_major, device_minor) = split_device(dev);
    DiskIOEvent {
        pid: upper_half(pid_tgid),
        comm,
        device_major,
        device_minor,
        operation,
        sector,
        num_sectors,
        bytes: sector_bytes(num_sectors),
        latency_ns: io_latency(now, start),
        timestamp: now,
    }
}

/// A block I/O request entering the queue: no operation or latency yet.
pub fn disk_io_queued(pid_tgid: u64, comm: [u8; 16], dev: u32, sector: u64, num_sectors: u32, now: u64) -> (e: DiskIOEvent)
    ensures
        e.pid == pid_tgid / 0x1_0000_0000,
        e.comm == comm,
        e.device_major == dev / 0x10_0000,
        e.device_minor == dev % 0x10_0000,
        e.operation == 0,
        e.sector == sector,
        e.num_sectors == num_sectors,
        e.bytes == num_sectors * 512,
        e.latency_ns == 0,
        e.timestamp == now,
{
    let (device_major, device_minor) = split_device(dev);
    DiskIOEvent {
        pid: upper_half(pid_tgid),
        comm,
        device_major,
        device_minor,
        operation: 0,
        sector,
        num_sectors,
        bytes: sector_bytes(num_sectors),
        latency_ns: 0,
        timestamp: now,
    }
}

/// Kinds of memory events.
pub const MEMORY_ALLOC: u32 = 1;
pub const MEMORY_FREE: u32 = 2;

/// A memory event of `event_type` and `size` bytes; the memory totals of
/// the process are not read and stay zero.
pub fn memory_event(pid_tgid: u64, comm: [u8; 16], event_type: u32, size: u64, now: u64) -> (e: MemoryEvent)
    ensures
        e.pid == pid_tgid / 0x1_0000_0000,
        e.comm == comm,
        e.event_type == event_type,
        e.size == size,
        e.rss_bytes == 0 && e.vms_bytes == 0 && e.shared_bytes == 0,
        e.timestamp == now,
{
    MemoryEvent {
        pid: upper_half(pid_tgid),
        comm,
        event_type,
        size,
        rss_bytes: 0,
        vms_bytes: 0,
        shared_bytes: 0,
        timestamp: now,
    }
}

/// Kinds of network events.
/// A 16-bit port with its two bytes swapped, which turns network byte
/// order into host order on a little-endian machine.
pub open spec fn swap_port_bytes(p: nat) -> nat {
    p / 256 + (p % 256) * 256
}

pub const TCP_CONNECT: u32 = 1;
pub const TCP_SEND: u32 = 2;
pub const TCP_RECEIVE: u32 = 3;

/// The TCP protocol number.
pub const PROTOCOL_TCP: u8 = 6;

/// A TCP event; the destination port arrives in network byte order and is
/// turned to host order.
pub fn tcp_event(
    event_type: u32,
    pid_tgid: u64,
    comm: [u8; 16],
    src_addr: u32,
    dst_addr: u32,
    src_port: u16,
    dst_port_network: u16,
    bytes_sent: u64,
    bytes_received: u64,
) -> (e: NetworkEvent)
    ensures
        e.event_type == event_type,
        e.pid == pid_tgid / 0x1_0000_0000,
        e.comm == comm,
        e.src_addr == src_addr,
        e.dst_addr == dst_addr,
        e.src_port == src_port,
        e.dst_port == swap_port_bytes(dst_port_network as nat),
        e.protocol == PROTOCOL_TCP,
        e.bytes_sent == bytes_sent,
        e.bytes_received == bytes_received,
{
    let hi = dst_port_network >> 8u16;
    let lo = dst_port_network & 0xFFu16;
    proof {
        assert(dst_port_network >> 8u16 == dst_port_network / 256) by (bit_vector);
        assert(dst_port_network & 0xFFu16 == dst_port_network % 256) by (bit_vector);
    }
    let port: u16 = lo * 256 + hi;
    NetworkEvent {
        event_type,
        pid: upper_half(pid_tgid),
        comm,
        src_addr,
        dst_addr,
        src_port,
        dst_port: port,
        protocol: PROTOCOL_TCP,
        bytes_sent,
        bytes_received,
    }
}

/// Where a tracepoint's dynamic string lies: the offset in the low sixteen
/// bits, the length in the next sixteen, kept to at most 255 bytes.
pub fn data_location(loc: u64) -> (r: (usize, usize))
    ensures
        r.0 == loc % 0x1_0000,
        r.1 == (if (loc / 0x1_0000) % 0x1_0000 > 255 { 255 } else { (loc / 0x1_0000) % 0x1_0000 }),
{
    let offset = loc & 0xFFFFu64;
    let size = (loc >> 16u64) & 0xFFFFu64;
    proof {
        assert(loc & 0xFFFFu64 == loc % 0x1_0000) by (bit_vector);
        assert((loc >> 16u64) & 0xFFFFu64 == (loc / 0x1_0000) % 0x1_0000) by (bit_vector);
    }
    let read_size = if size > 255 { 255 } else { size };
    (offset as usize, read_size as usize)
}

/// A file operation that the filesystem monitor reports.
#[derive(Clone, Copy, PartialEq, Eq, Structural)]
pub enum FileOperation {
    Open,
    Read,
    Write,
    Close,
}

/// The event type of a file operation: 1 open, 2 read, 3 write, 4 close.
pub open spec fn file_event_type(op: FileOperation) -> u32 {
    match op {
        FileOperation::Open => 1,
        FileOperation::Read => 2,
        FileOperation::Write => 3,
        FileOperation::Close => 4,
    }
}

/// The operation code of a file operation: 0 for open and read, 1 for
/// write, 4 for close.
pub open spec fn file_operation_code(op: FileOperation) -> u8 {
    match op {
        FileOperation::Open => 0,
        FileOperation::Read => 0,
        FileOperation::Write => 1,
        FileOperation::Close => 4,
    }
}

/// The event of a file operation on descriptor `fd`. The reported pid is
/// the low half of the pid/tgid word; reads and writes carry the byte
/// count asked for, and no file name is read.
pub fn filesystem_event(op: FileOperation, pid_tgid: u64, fd: u32, count: u64) -> (e: FilesystemEvent)
    ensures
        e.event_type == file_event_type(op),
        e.pid == pid_tgid % 0x1_0000_0000,
        e.fd == fd,
        forall|i: int| 0 <= i < 255 ==> e.filename[i] == 0,
        e.bytes_transferred == (if op == FileOperation::Read || op == FileOperation::Write { count } else { 0 }),
        e.operation == file_operation_code(op),
{
    let (event_type, bytes_transferred, operation): (u32, u64, u8) = match op {
        FileOperation::Open => (1, 0, 0),
        FileOperation::Read => (2, count, 0),
        FileOperation::Write => (3, count, 1),
        FileOperation::Close => (4, 0, 4),
    };
    FilesystemEvent { event_type, pid: lower_half(pid_tgid), fd, filename: [0u8; 255], bytes_transferred, operation }
}

/// The event of a program start: the process is the upper half of the
/// pid/tgid word, user and group the halves of the uid/gid word; the
/// parent pid read from the tracepoint is taken as unsigned.
pub fn process_exec_event(pid_tgid: u64, uid_gid: u64, comm: [u8; 16], parent_pid: i32, cmdline: [u8; 256]) -> (e:
    ProcessEvent)
    ensures
        e.pid == pid_tgid / 0x1_0000_0000,
        e.ppid == parent_pid as u32,
        e.uid == uid_gid / 0x1_0000_0000,
        e.gid == uid_gid % 0x1_0000_0000,
        e.comm == comm,
        e.cmdline == cmdline,
        e.event_type == 0,
{
    ProcessEvent {
        pid: upper_half(pid_tgid),
        ppid: parent_pid as u32,
        uid: upper_half(uid_gid),
        gid: lower_half(uid_gid),
        comm,
        cmdline,
        event_type: 0,
    }
}

/// The event of a process exit, with no parent and no command line.
pub fn process_exit_event(pid_tgid: u64, uid_gid: u64, comm: [u8; 16]) -> (e: ProcessEvent)
    ensures
        e.pid == pid_tgid / 0x1_0000_0000,
        e.ppid == 0,
        e.uid == uid_gid / 0x1_0000_0000,
        e.gid == uid_gid % 0x1_0000_0000,
        e.comm == comm,
        forall|i: int| 0 <= i < 256 ==> e.cmdline[i] == 0,
        e.event_type == 1,
{
    ProcessEvent {
        pid: upper_half(pid_tgid),
        ppid: 0,
        uid: upper_half(uid_gid),
        gid: lower_half(uid_gid),
        comm,
        cmdline: [0u8; 256],
        event_type: 1,
    }
}

/// The two halves of a 64-bit process word, the upper one as `upper_half`
/// gives it and the lower one as `lower_half` does, make up the word again.
pub proof fn lemma_halves_recombine(x: u64)
    ensures
        (x / 0x1_0000_0000) * 0x1_0000_0000 + x % 0x1_0000_0000 == x,
{
}

/// Swapping the bytes of a port twice gives the port back.
pub proof fn lemma_swap_port_bytes_twice(p: nat)
    requires
        p < 0x1_0000,
    ensures
        swap_port_bytes(p) < 0x1_0000,
        swap_port_bytes(swap_port_bytes(p)) == p,
{
    let hi = p / 256;
    let lo = p % 256;
    assert(p == hi * 256 + lo);
    assert(hi < 256);
    let q = swap_port_bytes(p);
    assert(q == hi + lo * 256);
    assert(q / 256 == lo && q % 256 == hi) by (nonlinear_arith)
        requires
            q == hi + lo * 256,
            hi < 256,
            lo < 256,
    ;
}

} // verus!
