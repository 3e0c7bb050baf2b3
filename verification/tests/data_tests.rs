use dots_family::cert_cache::CertificateCache;
use dots_family::db::{
    exception_lookup, rollback_version, weekly_daily_average, DatabaseConfig,
    ExceptionLookup, NewDailySummary, NewException, NewProfile, NewSession,
};
use dots_family::ebpf::{
    data_location, disk_io_completed, filesystem_event, process_exec_event, process_exit_event,
    FileOperation, disk_io_queued, io_latency, lower_half, memory_event,
    page_allocation_bytes, sector_bytes, split_device, tcp_event, upper_half, MEMORY_ALLOC,
    PROTOCOL_TCP, TCP_CONNECT,
};
use dots_family::profile::ProfileStore;

#[test]
fn database_settings() {
    let c = DatabaseConfig::default();
    assert_eq!(c.path, "family.db");
    assert_eq!(c.connection_url(), "sqlite://family.db");
    assert!(c.encryption_pragmas().is_empty());
    let keyed = DatabaseConfig { path: "/tmp/x.db".to_string(), encryption_key: Some("abc".to_string()) };
    let p = keyed.encryption_pragmas();
    assert_eq!(p[0], ("key".to_string(), "x'abc'".to_string()));
    assert_eq!(p[1], ("cipher_page_size".to_string(), "4096".to_string()));
    assert_eq!(p[2], ("kdf_iter".to_string(), "256000".to_string()));
}

#[test]
fn fresh_identifiers() {
    let a = NewSession::new("p0".to_string()).id;
    let b = NewSession::new("p0".to_string()).id;
    assert_eq!(a.len(), 36);
    assert_ne!(a, b);
    let s = NewSession::new("p1".to_string());
    assert_eq!(s.profile_id, "p1");
    assert_eq!(s.id.len(), 36);
    let p = NewProfile::new("TestChild".to_string(), "8-12".to_string(), "{}".to_string());
    assert_eq!(p.name, "TestChild");
    assert_eq!(p.age_group, "8-12");
    assert!(p.username.is_none());
    let id = ProfileStore::new().profiles[0].id;
    assert_eq!((id >> 76) & 0xF, 4);
    assert_eq!((id >> 62) & 0x3, 2);
}

#[test]
fn exception_and_summary_records() {
    let e = NewException::new("p".to_string(), "time".to_string(), "parent".to_string(), 1000);
    assert_eq!(e.exception_type, "time");
    assert_eq!(e.expires_at, 1000);
    assert!(e.reason.is_none() && e.app_id.is_none());
    let d = NewDailySummary::new("test-profile".to_string(), 738900);
    assert_eq!(d.date, 738900);
    assert_eq!(d.screen_time_seconds, 0);
    assert_eq!(d.top_apps, "[]");
    assert_eq!(d.top_websites, "[]");
}

#[test]
fn exception_lookups() {
    assert!(matches!(exception_lookup("app", Some("firefox")), ExceptionLookup::App(a) if a == "firefox"));
    assert!(matches!(exception_lookup("website", Some("a.com")), ExceptionLookup::Website(w) if w == "a.com"));
    assert!(matches!(exception_lookup("time", None), ExceptionLookup::Time));
    assert!(matches!(exception_lookup("app", None), ExceptionLookup::Generic(t) if t == "app"));
    assert!(matches!(exception_lookup("time", Some("x")), ExceptionLookup::Generic(t) if t == "time"));
}

#[test]
fn rollback_numbers_after_latest() {
    let v = rollback_version("p", 3, "{\"a\":1}".to_string(), Some(7), "parent", Some("oops"));
    assert_eq!(v.version, 8);
    assert_eq!(v.config, "{\"a\":1}");
    assert_eq!(v.reason, Some("Rollback to version 3: oops".to_string()));
    let v = rollback_version("p", 1, "{}".to_string(), None, "parent", None);
    assert_eq!(v.version, 1);
    assert_eq!(v.reason, Some("Rollback to version 1".to_string()));
}

#[test]
fn weekly_average() {
    assert_eq!(weekly_daily_average(25200, 100, 106), Some(3600));
    assert_eq!(weekly_daily_average(100, 10, 10), Some(100));
    assert_eq!(weekly_daily_average(-15, 1, 7), Some(-2));
    assert_eq!(weekly_daily_average(100, 10, 9), None);
}

#[test]
fn ebpf_arithmetic() {
    assert_eq!(upper_half(0x0000_1234_0000_5678), 0x1234);
    assert_eq!(lower_half(0x0000_1234_0000_5678), 0x5678);
    assert_eq!(split_device((8 << 20) | 3), (8, 3));
    assert_eq!(sector_bytes(8), 4096);
    assert_eq!(io_latency(1500, 1000), 500);
    assert_eq!(io_latency(900, 1000), 0);
    assert_eq!(io_latency(900, 0), 0);
    assert_eq!(page_allocation_bytes(0), 4096);
    assert_eq!(page_allocation_bytes(3), 32768);
    assert_eq!(data_location(0x0010_0020), (0x20, 0x10));
    assert_eq!(data_location(0x0400_0008), (8, 255));
}

#[test]
fn ebpf_events() {
    let comm = *b"test\0\0\0\0\0\0\0\0\0\0\0\0";
    let pid_tgid: u64 = (1234u64 << 32) | 1234;
    let e = disk_io_completed(pid_tgid, comm, (8 << 20) | 1, 1000, 8, 1, 1_000_500, 1_000_000);
    assert_eq!(e.pid, 1234);
    assert_eq!(e.device_major, 8);
    assert_eq!(e.device_minor, 1);
    assert_eq!(e.bytes, 4096);
    assert_eq!(e.latency_ns, 500);
    let q = disk_io_queued(pid_tgid, comm, 0, 1, 2, 5);
    assert_eq!(q.operation, 0);
    assert_eq!(q.latency_ns, 0);
    let m = memory_event(pid_tgid, comm, MEMORY_ALLOC, 1024, 77);
    assert_eq!(m.pid, 1234);
    assert_eq!(m.size, 1024);
    assert_eq!(m.rss_bytes, 0);
    let t = tcp_event(TCP_CONNECT, pid_tgid, comm, 1, 2, 40000, 0x5000, 0, 0);
    assert_eq!(t.dst_port, 80);
    assert_eq!(t.protocol, PROTOCOL_TCP);
    assert_eq!(t.src_port, 40000);
    let back = tcp_event(TCP_CONNECT, pid_tgid, comm, 1, 2, 40000, t.dst_port, 0, 0);
    assert_eq!(back.dst_port, 0x5000);
    let x: u64 = 0xDEAD_BEEF_0123_4567;
    assert_eq!(((upper_half(x) as u64) << 32) | lower_half(x) as u64, x);
}

#[test]
fn certificate_cache_remembers_and_forgets() {
    let mut c = CertificateCache::new(2);
    assert!(c.lookup("a.example").is_none());
    c.remember("a.example", b"certA".to_vec(), b"keyA".to_vec());
    assert_eq!(c.lookup("a.example"), Some((b"certA".to_vec(), b"keyA".to_vec())));
    c.remember("b.example", b"certB".to_vec(), b"keyB".to_vec());
    assert_eq!(c.lookup("a.example"), Some((b"certA".to_vec(), b"keyA".to_vec())));
    c.remember("a.example", b"certA2".to_vec(), b"keyA2".to_vec());
    assert_eq!(c.lookup("a.example"), Some((b"certA2".to_vec(), b"keyA2".to_vec())));
    c.remember("c.example", b"certC".to_vec(), b"keyC".to_vec());
    assert!(c.lookup("c.example").is_some());
    // b was the least recently used host when c came in.
    assert!(c.lookup("b.example").is_none());
    assert!(c.lookup("a.example").is_some());
}

#[test]
fn ebpf_file_and_process_events() {
    let pid_tgid: u64 = (1234u64 << 32) | 1240;
    let open = filesystem_event(FileOperation::Open, pid_tgid, 3, 99);
    assert_eq!((open.event_type, open.pid, open.fd, open.bytes_transferred, open.operation), (1, 1240, 3, 0, 0));
    assert!(open.filename.iter().all(|b| *b == 0));
    let read = filesystem_event(FileOperation::Read, pid_tgid, 3, 4096);
    assert_eq!((read.event_type, read.bytes_transferred, read.operation), (2, 4096, 0));
    let write = filesystem_event(FileOperation::Write, pid_tgid, 3, 10);
    assert_eq!((write.event_type, write.bytes_transferred, write.operation), (3, 10, 1));
    let close = filesystem_event(FileOperation::Close, pid_tgid, 3, 10);
    assert_eq!((close.event_type, close.bytes_transferred, close.operation), (4, 0, 4));

    let comm = *b"bash\0\0\0\0\0\0\0\0\0\0\0\0";
    let mut cmdline = [0u8; 256];
    cmdline[..8].copy_from_slice(b"/bin/ls\0");
    let uid_gid: u64 = (1000u64 << 32) | 100;
    let exec = process_exec_event(pid_tgid, uid_gid, comm, -1, cmdline);
    assert_eq!((exec.pid, exec.ppid, exec.uid, exec.gid, exec.event_type), (1234, u32::MAX, 1000, 100, 0));
    assert_eq!(&exec.cmdline[..7], b"/bin/ls");
    let exit = process_exit_event(pid_tgid, uid_gid, comm);
    assert_eq!((exit.pid, exit.ppid, exit.event_type), (1234, 0, 1));
    assert!(exit.cmdline.iter().all(|b| *b == 0));
}
