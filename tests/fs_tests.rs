use agrippa::fs::{File, OpenFlagBits, OpenOptions, ReadAll, TransferAll, READ_ALL_INITIAL};
use agrippa::io_uring_util::Fd;
use agrippa::tcp::Socket;
use agrippa::Error;

#[test]
fn default_options() {
    let o = OpenOptions::new();
    assert!(o.close_on_exec && o.user_read && o.user_write);
    assert!(!o.read && !o.write && !o.truncate && !o.append && !o.create && !o.exclusive);
    assert!(!o.direct && !o.no_atime && !o.no_follow && !o.temp_file);
    assert!(!o.user_execute && !o.group_read && !o.other_read && !o.set_user_id && !o.set_group_id);
    assert_eq!(o.flags(&OpenFlagBits::target()), libc::O_RDONLY as u32 | libc::O_CLOEXEC as u32);
    assert_eq!(o.mode(), 0o600);
}

#[test]
fn access_modes() {
    assert_eq!(OpenOptions::new().read(true).close_on_exec(false).flags(&OpenFlagBits::target()), libc::O_RDONLY as u32);
    assert_eq!(OpenOptions::new().write(true).close_on_exec(false).flags(&OpenFlagBits::target()), libc::O_WRONLY as u32);
    assert_eq!(OpenOptions::new().read(true).write(true).close_on_exec(false).flags(&OpenFlagBits::target()), libc::O_RDWR as u32);
}

#[test]
fn append_implies_write() {
    let mut o = OpenOptions::new();
    o.append(true);
    assert!(o.append && o.write);
    assert_eq!(o.flags(&OpenFlagBits::target()), (libc::O_WRONLY | libc::O_APPEND | libc::O_CLOEXEC) as u32);
}

#[test]
fn create_options_flags() {
    let mut o = OpenOptions::new();
    o.create(true).write(true).truncate(true);
    assert_eq!(o.flags(&OpenFlagBits::target()), (libc::O_WRONLY | libc::O_CREAT | libc::O_TRUNC | libc::O_CLOEXEC) as u32);
    let mut o = OpenOptions::new();
    o.read(true).exclusive(true).direct(true).no_atime(true).no_follow(true).temp_file(true).close_on_exec(false);
    assert_eq!(
        o.flags(&OpenFlagBits::target()),
        (libc::O_RDONLY | libc::O_EXCL | libc::O_DIRECT | libc::O_NOATIME | libc::O_NOFOLLOW | libc::O_TMPFILE) as u32
    );
}

#[test]
fn permission_bits() {
    let mut o = OpenOptions::new();
    o.user_execute(true).group_read(true).group_write(true).group_execute(true);
    o.other_read(true).other_write(true).other_execute(true);
    assert_eq!(o.mode(), 0o777);
    o.user_read(false).user_write(false).set_user_id(true).set_group_id(true);
    assert_eq!(o.mode(), 0o6177);
    let mut o = OpenOptions::new();
    o.user_read(false).user_write(false);
    assert_eq!(o.mode(), 0);
}

#[test]
fn write_all_completes_over_partial_writes() {
    let mut t = TransferAll::new(9);
    assert_eq!(t.remaining(), 9);
    assert_eq!(t.advance(4).unwrap(), false);
    assert_eq!(t.done(), 4);
    assert_eq!(t.advance(5).unwrap(), true);
    assert!(t.is_complete());
}

#[test]
fn write_all_zero_bytes_is_eof() {
    let mut t = TransferAll::new(3);
    assert!(matches!(t.advance(0), Err(Error::Eof)));
    assert_eq!(t.done(), 0);
}

#[test]
fn write_all_more_than_requested_is_refused() {
    let mut t = TransferAll::new(3);
    assert_eq!(t.advance(2).unwrap(), false);
    assert!(matches!(t.advance(2), Err(Error::Internal(_))));
    assert_eq!(t.done(), 2);
}

/// What a read of `len` bytes at `offset` returns from a file holding `f`.
fn file_read(f: &[u8], offset: usize, len: usize) -> Vec<u8> {
    if offset >= f.len() {
        Vec::new()
    } else {
        f[offset..f.len().min(offset + len)].to_vec()
    }
}

fn read_whole(f: &[u8]) -> (Vec<u8>, usize) {
    let mut ra = ReadAll::new();
    let mut reads = 0;
    loop {
        let chunk = file_read(f, ra.offset(), ra.request_len());
        reads += 1;
        if ra.on_read(&chunk).unwrap() {
            return (ra.into_data(), reads);
        }
    }
}

#[test]
fn read_all_empty_file() {
    let (data, reads) = read_whole(&[]);
    assert!(data.is_empty());
    assert_eq!(reads, 1);
}

#[test]
fn read_all_hello() {
    let (data, _) = read_whole(b"hello");
    assert_eq!(data, b"hello".to_vec());
}

#[test]
fn read_all_grows_buffer() {
    let f: Vec<u8> = (0..(READ_ALL_INITIAL * 3)).map(|i| (i % 251) as u8).collect();
    let mut ra = ReadAll::new();
    let first = file_read(&f, 0, ra.request_len());
    assert_eq!(ra.on_read(&first).unwrap(), false);
    assert_eq!(ra.offset(), READ_ALL_INITIAL);
    assert_eq!(ra.request_len(), READ_ALL_INITIAL);
    let (data, reads) = read_whole(&f);
    assert_eq!(data, f);
    assert_eq!(reads, 3);
}

#[test]
fn read_all_exactly_buffer_size() {
    let f = vec![7u8; READ_ALL_INITIAL];
    let (data, reads) = read_whole(&f);
    assert_eq!(data, f);
    assert_eq!(reads, 2);
}

#[test]
fn read_all_refuses_oversized_chunk() {
    let mut ra = ReadAll::new();
    let chunk = vec![0u8; READ_ALL_INITIAL + 1];
    assert!(matches!(ra.on_read(&chunk), Err(Error::Internal(_))));
    assert_eq!(ra.offset(), 0);
}

#[test]
fn write_then_read_back() {
    // write "hello" into an empty file with writes of at most 2 bytes, then
    // read it whole
    let b = b"hello";
    let mut file: Vec<u8> = Vec::new();
    let mut t = TransferAll::new(b.len());
    loop {
        let start = t.done();
        let n = t.remaining().min(2);
        file.truncate(start);
        file.extend_from_slice(&b[start..start + n]);
        if t.advance(n).unwrap() {
            break;
        }
    }
    assert_eq!(file, b.to_vec());
    let (data, _) = read_whole(&file);
    assert_eq!(data, b.to_vec());
}

#[test]
fn file_steps_follow_progress() {
    let f = File::from_fd(Fd { fd: 5 });
    let mut t = TransferAll::new(10);
    t.advance(4).unwrap();
    let w = f.write_step(&t, 0x1000, 100);
    assert_eq!((w.method.fd, w.method.data, w.method.len, w.method.offset), (5, 0x1004, 6, 104));
    let ra = ReadAll::new();
    let r = f.read_all_step(&ra, 0x8000);
    assert_eq!((r.method.data, r.method.len as usize, r.method.offset), (0x8000, READ_ALL_INITIAL, 0));
    assert_eq!(f.into_fd().into_raw(), 5);
}

#[test]
fn socket_sends_nine_bytes() {
    let s = Socket::from_fd(Fd { fd: 4 });
    let msg = b"hi there\n";
    let mut t = TransferAll::new(msg.len());
    let w = s.write(&t, 0x100);
    assert_eq!((w.method.len, w.method.offset), (9, 0));
    assert_eq!(t.advance(9).unwrap(), true);
    let mut rd = TransferAll::new(9);
    let r = s.read_all(&rd, 0x200);
    assert_eq!(r.method.len, 9);
    assert_eq!(rd.advance(5).unwrap(), false);
    let r = s.read_all(&rd, 0x200);
    assert_eq!((r.method.data, r.method.len), (0x205, 4));
    assert!(matches!(rd.advance(0), Err(Error::Eof)));
}

#[test]
fn access_mode_survives_other_flags() {
    let mut o = OpenOptions::new();
    o.truncate(true).append(true).create(true).exclusive(true).direct(true);
    o.no_atime(true).no_follow(true).temp_file(true).read(true);
    assert_eq!(o.flags(&OpenFlagBits::target()) & 3, libc::O_RDWR as u32);
    o.read(false);
    assert_eq!(o.flags(&OpenFlagBits::target()) & 3, libc::O_WRONLY as u32);
    o.write(false);
    assert_eq!(o.flags(&OpenFlagBits::target()) & 3, libc::O_RDONLY as u32);
}

#[test]
fn each_option_sets_its_own_flag() {
    let b = OpenFlagBits::target();
    let mut o = OpenOptions::new();
    o.close_on_exec(false).truncate(true);
    let f = o.flags(&b);
    assert_eq!(f & b.trunc, b.trunc);
    assert_eq!(f & b.append, 0);
    o.truncate(false).append(true);
    let f = o.flags(&b);
    assert_eq!(f & b.trunc, 0);
    assert_eq!(f & b.append, b.append);
    assert_eq!(f & 3, b.wronly);
}
