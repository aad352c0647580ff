use vstd::prelude::*;

use crate::error::{Error, Result};
use crate::io_uring_util::{Fd, IOUringFeature, Read, Write};
use crate::runtime::OpState;

verus! {

/// Options and flags that say how a file is opened, and the permission bits
/// of a file that the open creates.
#[derive(Clone, Copy, Debug, PartialEq, Eq, Structural)]
pub struct OpenOptions {
    pub read: bool,
    pub write: bool,
    pub truncate: bool,
    pub append: bool,
    pub create: bool,
    pub exclusive: bool,
    pub close_on_exec: bool,
    pub direct: bool,
    pub no_atime: bool,
    pub no_follow: bool,
    pub temp_file: bool,
    pub user_read: bool,
    pub user_write: bool,
    pub user_execute: bool,
    pub group_read: bool,
    pub group_write: bool,
    pub group_execute: bool,
    pub other_read: bool,
    pub other_write: bool,
    pub other_execute: bool,
    pub set_user_id: bool,
    pub set_group_id: bool,
}

/// The values of the open flags on the target: the access modes and the
/// flags that `OpenOptions` sets.
#[derive(Clone, Copy, Debug, PartialEq, Eq, Structural)]
pub struct OpenFlagBits {
    pub rdonly: u32,
    pub wronly: u32,
    pub rdwr: u32,
    pub trunc: u32,
    pub append: u32,
    pub creat: u32,
    pub excl: u32,
    pub cloexec: u32,
    pub direct: u32,
    pub noatime: u32,
    pub nofollow: u32,
    pub tmpfile: u32,
}

/// The flag values other than the access modes, in field order.
pub open spec fn other_flags(b: OpenFlagBits) -> Seq<u32> {
    seq![b.trunc, b.append, b.creat, b.excl, b.cloexec, b.direct, b.noatime, b.nofollow, b.tmpfile]
}

/// What holds of the open flags on every Linux target: the access modes are
/// 0, 1 and 2; every other flag is non-zero, has no bit in common with the
/// access modes, and none with any other flag.
pub open spec fn linux_flag_bits(b: OpenFlagBits) -> bool {
    &&& b.rdonly == 0
    &&& b.wronly == 1
    &&& b.rdwr == 2
    &&& forall|i: int|
        0 <= i < 9 ==> #[trigger] other_flags(b)[i] != 0 && other_flags(b)[i] & 3 == 0
    &&& forall|i: int, j: int|
        0 <= i < 9 && 0 <= j < 9 && i != j ==> #[trigger] other_flags(b)[i]
            & #[trigger] other_flags(b)[j] == 0
}

/// Relies on libc's O_* open flag constants. The access modes O_RDONLY,
/// O_WRONLY and O_RDWR are 0, 1 and 2 on every Linux target; the other
/// values differ between architectures, but on each one they are distinct
/// single flags (O_TMPFILE includes O_DIRECTORY, which is none of them)
/// above the two access-mode bits.
#[verifier::external_body]
fn open_flag_bits() -> (r: OpenFlagBits)
    ensures
        linux_flag_bits(r),
{
    OpenFlagBits {
        rdonly: libc::O_RDONLY as u32,
        wronly: libc::O_WRONLY as u32,
        rdwr: libc::O_RDWR as u32,
        trunc: libc::O_TRUNC as u32,
        append: libc::O_APPEND as u32,
        creat: libc::O_CREAT as u32,
        excl: libc::O_EXCL as u32,
        cloexec: libc::O_CLOEXEC as u32,
        direct: libc::O_DIRECT as u32,
        noatime: libc::O_NOATIME as u32,
        nofollow: libc::O_NOFOLLOW as u32,
        tmpfile: libc::O_TMPFILE as u32,
    }
}

impl OpenFlagBits {
    /// The open flag values of the target this runs on.
    pub fn target() -> (r: OpenFlagBits)
        ensures
            linux_flag_bits(r),
    {
        open_flag_bits()
    }
}

/// The permission bits, in the order of `OpenOptions`' fields.
#[derive(Clone, Copy, Debug, PartialEq, Eq, Structural)]
pub struct ModeBits {
    pub irusr: u32,
    pub iwusr: u32,
    pub ixusr: u32,
    pub irgrp: u32,
    pub iwgrp: u32,
    pub ixgrp: u32,
    pub iroth: u32,
    pub iwoth: u32,
    pub ixoth: u32,
    pub isuid: u32,
    pub isgid: u32,
}

/// The POSIX permission bits.
pub open spec fn posix_mode_bits() -> ModeBits {
    ModeBits {
        irusr: 0o400,
        iwusr: 0o200,
        ixusr: 0o100,
        irgrp: 0o040,
        iwgrp: 0o020,
        ixgrp: 0o010,
        iroth: 0o004,
        iwoth: 0o002,
        ixoth: 0o001,
        isuid: 0o4000,
        isgid: 0o2000,
    }
}

/// Relies on libc's S_I* permission constants, the same on every Linux
/// target.
#[verifier::external_body]
fn mode_bits() -> (r: ModeBits)
    ensures
        r == posix_mode_bits(),
{
    ModeBits {
        irusr: libc::S_IRUSR as u32,
        iwusr: libc::S_IWUSR as u32,
        ixusr: libc::S_IXUSR as u32,
        irgrp: libc::S_IRGRP as u32,
        iwgrp: libc::S_IWGRP as u32,
        ixgrp: libc::S_IXGRP as u32,
        iroth: libc::S_IROTH as u32,
        iwoth: libc::S_IWOTH as u32,
        ixoth: libc::S_IXOTH as u32,
        isuid: libc::S_ISUID as u32,
        isgid: libc::S_ISGID as u32,
    }
}

/// `bit` when `on`, else nothing.
pub open spec fn bit_if(on: bool, bit: u32) -> u32 {
    if on {
        bit
    } else {
        0
    }
}

/// The open flags that `o` stands for, given the target's flag values.
pub open spec fn flags_spec(o: OpenOptions, b: OpenFlagBits) -> u32 {
    let access: u32 = if o.read && o.write {
        b.rdwr
    } else if o.read {
        b.rdonly
    } else if o.write {
        b.wronly
    } else {
        0
    };
    access | bit_if(o.truncate, b.trunc) | bit_if(o.append, b.append) | bit_if(o.create, b.creat)
        | bit_if(o.exclusive, b.excl) | bit_if(o.close_on_exec, b.cloexec) | bit_if(
        o.direct,
        b.direct,
    ) | bit_if(o.no_atime, b.noatime) | bit_if(o.no_follow, b.nofollow) | bit_if(
        o.temp_file,
        b.tmpfile,
    )
}

/// The permission bits that `o` stands for, given their values.
pub open spec fn mode_spec(o: OpenOptions, m: ModeBits) -> u32 {
    0u32 | bit_if(o.user_read, m.irusr) | bit_if(o.user_write, m.iwusr) | bit_if(
        o.user_execute,
        m.ixusr,
    ) | bit_if(o.group_read, m.irgrp) | bit_if(o.group_write, m.iwgrp) | bit_if(
        o.group_execute,
        m.ixgrp,
    ) | bit_if(o.other_read, m.iroth) | bit_if(o.other_write, m.iwoth) | bit_if(
        o.other_execute,
        m.ixoth,
    ) | bit_if(o.set_user_id, m.isuid) | bit_if(o.set_group_id, m.isgid)
}

/// The access mode that `o` asks for: O_RDWR, O_RDONLY or O_WRONLY.
pub open spec fn access_mode(o: OpenOptions) -> u32 {
    if o.read && o.write {
        2
    } else if o.write {
        1
    } else {
        0
    }
}

/// The open flags of `o` keep its access mode in the two low bits, and hold
/// each other flag's bits exactly when its option is set.
#[verifier::rlimit(100)]
proof fn lemma_flags_facts(o: OpenOptions, b: OpenFlagBits)
    requires
        linux_flag_bits(b),
    ensures
        flags_spec(o, b) & 3 == access_mode(o),
        flags_spec(o, b) & b.trunc == bit_if(o.truncate, b.trunc),
        flags_spec(o, b) & b.append == bit_if(o.append, b.append),
        flags_spec(o, b) & b.creat == bit_if(o.create, b.creat),
        flags_spec(o, b) & b.excl == bit_if(o.exclusive, b.excl),
        flags_spec(o, b) & b.cloexec == bit_if(o.close_on_exec, b.cloexec),
        flags_spec(o, b) & b.direct == bit_if(o.direct, b.direct),
        flags_spec(o, b) & b.noatime == bit_if(o.no_atime, b.noatime),
        flags_spec(o, b) & b.nofollow == bit_if(o.no_follow, b.nofollow),
        flags_spec(o, b) & b.tmpfile == bit_if(o.temp_file, b.tmpfile),
{
    let a: u32 = if o.read && o.write {
        b.rdwr
    } else if o.read {
        b.rdonly
    } else if o.write {
        b.wronly
    } else {
        0
    };
    assert(a == access_mode(o));
    let f = other_flags(b);
    assert(f[0] == b.trunc && f[1] == b.append && f[2] == b.creat && f[3] == b.excl);
    assert(f[4] == b.cloexec && f[5] == b.direct && f[6] == b.noatime && f[7] == b.nofollow);
    assert(f[8] == b.tmpfile);
    let x1 = bit_if(o.truncate, b.trunc);
    let x2 = bit_if(o.append, b.append);
    let x3 = bit_if(o.create, b.creat);
    let x4 = bit_if(o.exclusive, b.excl);
    let x5 = bit_if(o.close_on_exec, b.cloexec);
    let x6 = bit_if(o.direct, b.direct);
    let x7 = bit_if(o.no_atime, b.noatime);
    let x8 = bit_if(o.no_follow, b.nofollow);
    let x9 = bit_if(o.temp_file, b.tmpfile);
    assert(0u32 & 3 == 0) by (bit_vector);
    assert(x1 & 3 == 0 && x2 & 3 == 0 && x3 & 3 == 0 && x4 & 3 == 0 && x5 & 3 == 0);
    assert(x6 & 3 == 0 && x7 & 3 == 0 && x8 & 3 == 0 && x9 & 3 == 0);
    lemma_low_bits_kept(a, x1, x2, x3, x4, x5, x6, x7, x8, x9);
    lemma_flag_of_option(o, b, 0);
    lemma_flag_of_option(o, b, 1);
    lemma_flag_of_option(o, b, 2);
    lemma_flag_of_option(o, b, 3);
    lemma_flag_of_option(o, b, 4);
    lemma_flag_of_option(o, b, 5);
    lemma_flag_of_option(o, b, 6);
    lemma_flag_of_option(o, b, 7);
    lemma_flag_of_option(o, b, 8);
}

/// The options that stand for the flags of `other_flags`, in the same order.
pub open spec fn option_flags(o: OpenOptions) -> Seq<bool> {
    seq![
        o.truncate,
        o.append,
        o.create,
        o.exclusive,
        o.close_on_exec,
        o.direct,
        o.no_atime,
        o.no_follow,
        o.temp_file,
    ]
}

/// In the open flags of `o`, the `k`-th flag's bits are present exactly when
/// its option is set.
#[verifier::rlimit(100)]
proof fn lemma_flag_of_option(o: OpenOptions, b: OpenFlagBits, k: int)
    requires
        linux_flag_bits(b),
        0 <= k < 9,
    ensures
        flags_spec(o, b) & other_flags(b)[k] == bit_if(option_flags(o)[k], other_flags(b)[k]),
{
    let f = other_flags(b);
    let on = option_flags(o);
    let y = f[k];
    let a: u32 = if o.read && o.write {
        b.rdwr
    } else if o.read {
        b.rdonly
    } else if o.write {
        b.wronly
    } else {
        0
    };
    let x0 = bit_if(on[0], f[0]);
    let x1 = bit_if(on[1], f[1]);
    let x2 = bit_if(on[2], f[2]);
    let x3 = bit_if(on[3], f[3]);
    let x4 = bit_if(on[4], f[4]);
    let x5 = bit_if(on[5], f[5]);
    let x6 = bit_if(on[6], f[6]);
    let x7 = bit_if(on[7], f[7]);
    let x8 = bit_if(on[8], f[8]);
    assert(flags_spec(o, b) == a | x0 | x1 | x2 | x3 | x4 | x5 | x6 | x7 | x8);
    lemma_part(on[0], f[0], y, k == 0);
    lemma_part(on[1], f[1], y, k == 1);
    lemma_part(on[2], f[2], y, k == 2);
    lemma_part(on[3], f[3], y, k == 3);
    lemma_part(on[4], f[4], y, k == 4);
    lemma_part(on[5], f[5], y, k == 5);
    lemma_part(on[6], f[6], y, k == 6);
    lemma_part(on[7], f[7], y, k == 7);
    lemma_part(on[8], f[8], y, k == 8);
    lemma_pick_one(a, x0, x1, x2, x3, x4, x5, x6, x7, x8, y, k);
}

/// One part of the or, masked by `y`: all of it when it is `y`'s own flag,
/// nothing when its flag is disjoint from `y`.
proof fn lemma_part(on: bool, u: u32, y: u32, same: bool)
    requires
        same ==> u == y,
        !same ==> u & y == 0,
    ensures
        bit_if(on, u) & y == (if same { bit_if(on, u) } else { 0 }),
{
    assert(u & u == u) by (bit_vector);
    assert(0u32 & y == 0) by (bit_vector);
}

/// Masking an or of disjoint parts by `y` keeps the one part inside `y`.
proof fn lemma_pick_one(
    a: u32,
    x0: u32,
    x1: u32,
    x2: u32,
    x3: u32,
    x4: u32,
    x5: u32,
    x6: u32,
    x7: u32,
    x8: u32,
    y: u32,
    k: int,
)
    requires
        a <= 2,
        y & 3 == 0,
        0 <= k < 9,
        x0 & y == (if k == 0 { x0 } else { 0 }),
        x1 & y == (if k == 1 { x1 } else { 0 }),
        x2 & y == (if k == 2 { x2 } else { 0 }),
        x3 & y == (if k == 3 { x3 } else { 0 }),
        x4 & y == (if k == 4 { x4 } else { 0 }),
        x5 & y == (if k == 5 { x5 } else { 0 }),
        x6 & y == (if k == 6 { x6 } else { 0 }),
        x7 & y == (if k == 7 { x7 } else { 0 }),
        x8 & y == (if k == 8 { x8 } else { 0 }),
    ensures
        (a | x0 | x1 | x2 | x3 | x4 | x5 | x6 | x7 | x8) & y == seq![x0, x1, x2, x3, x4, x5, x6, x7, x8][k],
{
    let m0 = x0 & y;
    let m1 = x1 & y;
    let m2 = x2 & y;
    let m3 = x3 & y;
    let m4 = x4 & y;
    let m5 = x5 & y;
    let m6 = x6 & y;
    let m7 = x7 & y;
    let m8 = x8 & y;
    assert((a | x0 | x1 | x2 | x3 | x4 | x5 | x6 | x7 | x8) & y == m0 | m1 | m2 | m3 | m4 | m5 | m6
        | m7 | m8) by (bit_vector)
        requires
            a <= 2,
            y & 3 == 0,
            m0 == x0 & y,
            m1 == x1 & y,
            m2 == x2 & y,
            m3 == x3 & y,
            m4 == x4 & y,
            m5 == x5 & y,
            m6 == x6 & y,
            m7 == x7 & y,
            m8 == x8 & y,
    ;
    assert(forall|v: u32| #![auto] (0u32 | v) == v && (v | 0u32) == v) by (bit_vector);
}

/// Or-ing in values with the two low bits clear keeps an access mode.
proof fn lemma_low_bits_kept(
    a: u32,
    x1: u32,
    x2: u32,
    x3: u32,
    x4: u32,
    x5: u32,
    x6: u32,
    x7: u32,
    x8: u32,
    x9: u32,
)
    requires
        a <= 2,
        x1 & 3 == 0,
        x2 & 3 == 0,
        x3 & 3 == 0,
        x4 & 3 == 0,
        x5 & 3 == 0,
        x6 & 3 == 0,
        x7 & 3 == 0,
        x8 & 3 == 0,
        x9 & 3 == 0,
    ensures
        (a | x1 | x2 | x3 | x4 | x5 | x6 | x7 | x8 | x9) & 3 == a,
{
    assert((a | x1 | x2 | x3 | x4 | x5 | x6 | x7 | x8 | x9) & 3 == a) by (bit_vector)
        requires
            a <= 2,
            x1 & 3 == 0,
            x2 & 3 == 0,
            x3 & 3 == 0,
            x4 & 3 == 0,
            x5 & 3 == 0,
            x6 & 3 == 0,
            x7 & 3 == 0,
            x8 & 3 == 0,
            x9 & 3 == 0,
    ;
}

fn bit_when(on: bool, bit: u32) -> (r: u32)
    ensures
        r == bit_if(on, bit),
{
    if on {
        bit
    } else {
        0
    }
}

impl OpenOptions {
    /// The default options: everything off but close-on-exec, user read and
    /// user write.
    pub open spec fn default_spec() -> OpenOptions {
        OpenOptions {
            read: false,
            write: false,
            truncate: false,
            append: false,
            create: false,
            exclusive: false,
            close_on_exec: true,
            direct: false,
            no_atime: false,
            no_follow: false,
            temp_file: false,
            user_read: true,
            user_write: true,
            user_execute: false,
            group_read: false,
            group_write: false,
            group_execute: false,
            other_read: false,
            other_write: false,
            other_execute: false,
            set_user_id: false,
            set_group_id: false,
        }
    }

    /// A new set of options: everything off but close-on-exec, user read and
    /// user write.
    pub fn new() -> (r: Self)
        ensures
            r == Self::default_spec(),
    {
        OpenOptions {
            read: false,
            write: false,
            truncate: false,
            append: false,
            create: false,
            exclusive: false,
            close_on_exec: true,
            direct: false,
            no_atime: false,
            no_follow: false,
            temp_file: false,
            user_read: true,
            user_write: true,
            user_execute: false,
            group_read: false,
            group_write: false,
            group_execute: false,
            other_read: false,
            other_write: false,
            other_execute: false,
            set_user_id: false,
            set_group_id: false,
        }
    }

    /// Sets the option for read access.
    pub fn read(&mut self, read: bool) -> (r: &mut Self)
        ensures
            *r == (OpenOptions { read, ..*old(self) }),
            *final(self) == *final(r),
    {
        self.read = read;
        self
    }

    /// Sets the option for write access; writes overwrite without truncating.
    pub fn write(&mut self, write: bool) -> (r: &mut Self)
        ensures
            *r == (OpenOptions { write, ..*old(self) }),
            *final(self) == *final(r),
    {
        self.write = write;
        self
    }

    /// Sets the option to truncate an existing file to length 0 (needs write access).
    pub fn truncate(&mut self, truncate: bool) -> (r: &mut Self)
        ensures
            *r == (OpenOptions { truncate, ..*old(self) }),
            *final(self) == *final(r),
    {
        self.truncate = truncate;
        self
    }

    /// Sets the option to append; it implies write access.
    pub fn append(&mut self, append: bool) -> (r: &mut Self)
        ensures
            *r == (OpenOptions { append, write: true, ..*old(self) }),
            *final(self) == *final(r),
    {
        self.append = append;
        self.write = true;
        self
    }

    /// Sets the option to create the file if it does not exist.
    pub fn create(&mut self, create: bool) -> (r: &mut Self)
        ensures
            *r == (OpenOptions { create, ..*old(self) }),
            *final(self) == *final(r),
    {
        self.create = create;
        self
    }

    /// With `create`, fail with EEXIST when the path already exists.
    pub fn exclusive(&mut self, exclusive: bool) -> (r: &mut Self)
        ensures
            *r == (OpenOptions { exclusive, ..*old(self) }),
            *final(self) == *final(r),
    {
        self.exclusive = exclusive;
        self
    }

    /// Sets the close-on-exec flag of the new descriptor (on by default).
    pub fn close_on_exec(&mut self, close_on_exec: bool) -> (r: &mut Self)
        ensures
            *r == (OpenOptions { close_on_exec, ..*old(self) }),
            *final(self) == *final(r),
    {
        self.close_on_exec = close_on_exec;
        self
    }

    /// Minimises cache effects: I/O goes directly to and from user buffers.
    pub fn direct(&mut self, direct: bool) -> (r: &mut Self)
        ensures
            *r == (OpenOptions { direct, ..*old(self) }),
            *final(self) == *final(r),
    {
        self.direct = direct;
        self
    }

    /// Does not update the last access time when the file is read.
    pub fn no_atime(&mut self, no_atime: bool) -> (r: &mut Self)
        ensures
            *r == (OpenOptions { no_atime, ..*old(self) }),
            *final(self) == *final(r),
    {
        self.no_atime = no_atime;
        self
    }

    /// Fails with ELOOP when the path is a symbolic link.
    pub fn no_follow(&mut self, no_follow: bool) -> (r: &mut Self)
        ensures
            *r == (OpenOptions { no_follow, ..*old(self) }),
            *final(self) == *final(r),
    {
        self.no_follow = no_follow;
        self
    }

    /// Creates an unnamed temporary file in the directory that the path names.
    pub fn temp_file(&mut self, temp_file: bool) -> (r: &mut Self)
        ensures
            *r == (OpenOptions { temp_file, ..*old(self) }),
            *final(self) == *final(r),
    {
        self.temp_file = temp_file;
        self
    }

    /// Sets the user-read permission bit (0o400).
    pub fn user_read(&mut self, user_read: bool) -> (r: &mut Self)
        ensures
            *r == (OpenOptions { user_read, ..*old(self) }),
            *final(self) == *final(r),
    {
        self.user_read = user_read;
        self
    }

    /// Sets the user-write permission bit (0o200).
    pub fn user_write(&mut self, user_write: bool) -> (r: &mut Self)
        ensures
            *r == (OpenOptions { user_write, ..*old(self) }),
            *final(self) == *final(r),
    {
        self.user_write = user_write;
        self
    }

    /// Sets the user-execute permission bit (0o100).
    pub fn user_execute(&mut self, user_execute: bool) -> (r: &mut Self)
        ensures
            *r == (OpenOptions { user_execute, ..*old(self) }),
            *final(self) == *final(r),
    {
        self.user_execute = user_execute;
        self
    }

    /// Sets the group-read permission bit (0o040).
    pub fn group_read(&mut self, group_read: bool) -> (r: &mut Self)
        ensures
            *r == (OpenOptions { group_read, ..*old(self) }),
            *final(self) == *final(r),
    {
        self.group_read = group_read;
        self
    }

    /// Sets the group-write permission bit (0o020).
    pub fn group_write(&mut self, group_write: bool) -> (r: &mut Self)
        ensures
            *r == (OpenOptions { group_write, ..*old(self) }),
            *final(self) == *final(r),
    {
        self.group_write = group_write;
        self
    }

    /// Sets the group-execute permission bit (0o010).
    pub fn group_execute(&mut self, group_execute: bool) -> (r: &mut Self)
        ensures
            *r == (OpenOptions { group_execute, ..*old(self) }),
            *final(self) == *final(r),
    {
        self.group_execute = group_execute;
        self
    }

    /// Sets the other-read permission bit (0o004).
    pub fn other_read(&mut self, other_read: bool) -> (r: &mut Self)
        ensures
            *r == (OpenOptions { other_read, ..*old(self) }),
            *final(self) == *final(r),
    {
        self.other_read = other_read;
        self
    }

    /// Sets the other-write permission bit (0o002).
    pub fn other_write(&mut self, other_write: bool) -> (r: &mut Self)
        ensures
            *r == (OpenOptions { other_write, ..*old(self) }),
            *final(self) == *final(r),
    {
        self.other_write = other_write;
        self
    }

    /// Sets the other-execute permission bit (0o001).
    pub fn other_execute(&mut self, other_execute: bool) -> (r: &mut Self)
        ensures
            *r == (OpenOptions { other_execute, ..*old(self) }),
            *final(self) == *final(r),
    {
        self.other_execute = other_execute;
        self
    }

    /// Sets the set-user-ID bit: the file executes as its owner.
    pub fn set_user_id(&mut self, set_user_id: bool) -> (r: &mut Self)
        ensures
            *r == (OpenOptions { set_user_id, ..*old(self) }),
            *final(self) == *final(r),
    {
        self.set_user_id = set_user_id;
        self
    }

    /// Sets the set-group-ID bit: the file executes as its group.
    pub fn set_group_id(&mut self, set_group_id: bool) -> (r: &mut Self)
        ensures
            *r == (OpenOptions { set_group_id, ..*old(self) }),
            *final(self) == *final(r),
    {
        self.set_group_id = set_group_id;
        self
    }

    /// The open flags, over the target's flag values `b` (see
    /// `OpenFlagBits::target`): the access mode or-ed with the flag of each
    /// option that is set. The access mode is O_RDWR (2) for read and write,
    /// O_RDONLY (0) for read alone, O_WRONLY (1) for write alone.
    pub fn flags(&self, b: &OpenFlagBits) -> (r: u32)
        requires
            linux_flag_bits(*b),
        ensures
            r == flags_spec(*self, *b),
            r & 3 == access_mode(*self),
            r & b.trunc == bit_if(self.truncate, b.trunc),
            r & b.append == bit_if(self.append, b.append),
            r & b.creat == bit_if(self.create, b.creat),
            r & b.excl == bit_if(self.exclusive, b.excl),
            r & b.cloexec == bit_if(self.close_on_exec, b.cloexec),
            r & b.direct == bit_if(self.direct, b.direct),
            r & b.noatime == bit_if(self.no_atime, b.noatime),
            r & b.nofollow == bit_if(self.no_follow, b.nofollow),
            r & b.tmpfile == bit_if(self.temp_file, b.tmpfile),
    {
        let access: u32 = if self.read && self.write {
            b.rdwr
        } else if self.read {
            b.rdonly
        } else if self.write {
            b.wronly
        } else {
            0
        };
        let r = access | bit_when(self.truncate, b.trunc) | bit_when(self.append, b.append) | bit_when(
            self.create,
            b.creat,
        ) | bit_when(self.exclusive, b.excl) | bit_when(self.close_on_exec, b.cloexec)
            | bit_when(self.direct, b.direct) | bit_when(self.no_atime, b.noatime) | bit_when(
            self.no_follow,
            b.nofollow,
        ) | bit_when(self.temp_file, b.tmpfile);
        proof {
            lemma_flags_facts(*self, *b);
        }
        r
    }

    /// The permission bits of a created file.
    pub fn mode(&self) -> (r: u32)
        ensures
            r == mode_spec(*self, posix_mode_bits()),
    {
        let m = mode_bits();
        0u32 | bit_when(self.user_read, m.irusr) | bit_when(self.user_write, m.iwusr) | bit_when(
            self.user_execute,
            m.ixusr,
        ) | bit_when(self.group_read, m.irgrp) | bit_when(self.group_write, m.iwgrp) | bit_when(
            self.group_execute,
            m.ixgrp,
        ) | bit_when(self.other_read, m.iroth) | bit_when(self.other_write, m.iwoth) | bit_when(
            self.other_execute,
            m.ixoth,
        ) | bit_when(self.set_user_id, m.isuid) | bit_when(self.set_group_id, m.isgid)
    }
}

/// An open file.
#[derive(Debug)]
pub struct File {
    fd: Fd,
}

impl File {
    pub closed spec fn fd_spec(&self) -> i32 {
        self.fd.fd
    }

    /// The file that the descriptor `fd` is open on.
    pub fn from_fd(fd: Fd) -> (r: File)
        ensures
            r.fd_spec() == fd.fd,
    {
        File { fd }
    }

    pub fn fd(&self) -> (r: &Fd)
        ensures
            r.fd == self.fd_spec(),
    {
        &self.fd
    }

    /// Gives the descriptor up, to be closed.
    pub fn into_fd(self) -> (r: Fd)
        ensures
            r.fd == self.fd_spec(),
    {
        self.fd
    }
}

/// The progress of a transfer that must move all of `len` bytes: a write of
/// a whole buffer, or a read that fills one. A transfer of zero bytes for a
/// non-empty request ends it with `Eof`; it never ends partly done.
pub struct TransferAll {
    len: usize,
    done: usize,
}

impl TransferAll {
    pub closed spec fn len_spec(&self) -> usize {
        self.len
    }

    /// The bytes moved so far.
    pub closed spec fn done_spec(&self) -> usize {
        self.done
    }

    pub open spec fn wf(&self) -> bool {
        self.done_spec() <= self.len_spec()
    }

    pub fn new(len: usize) -> (r: TransferAll)
        ensures
            r.wf(),
            r.len_spec() == len,
            r.done_spec() == 0,
    {
        TransferAll { len, done: 0 }
    }

    /// Where the next request starts.
    pub fn done(&self) -> (r: usize)
        ensures
            r == self.done_spec(),
    {
        self.done
    }

    /// How many bytes are still to move.
    pub fn remaining(&self) -> (r: usize)
        requires
            self.wf(),
        ensures
            r == self.len_spec() - self.done_spec(),
    {
        self.len - self.done
    }

    pub fn is_complete(&self) -> (r: bool)
        ensures
            r == (self.done_spec() == self.len_spec()),
    {
        self.done == self.len
    }

    /// Accounts for a request that moved `n` bytes. `Ok(true)` when all is
    /// moved, `Ok(false)` when more is to move.
    pub fn advance(&mut self, n: usize) -> (r: Result<bool>)
        requires
            old(self).wf(),
            old(self).done_spec() < old(self).len_spec(),
        ensures
            final(self).wf(),
            final(self).len_spec() == old(self).len_spec(),
            n == 0 ==> r == Err::<bool, Error>(Error::Eof) && final(self).done_spec() == old(self).done_spec(),
            n > old(self).len_spec() - old(self).done_spec() ==> r == Err::<bool, Error>(
                Error::Internal("operation reported more bytes than requested"),
            ) && final(self).done_spec() == old(self).done_spec(),
            0 < n <= old(self).len_spec() - old(self).done_spec() ==> {
                &&& final(self).done_spec() == old(self).done_spec() + n
                &&& r == Ok::<bool, Error>(final(self).done_spec() == final(self).len_spec())
            },
            // the transfer never reports success with bytes left over
            r == Ok::<bool, Error>(true) ==> final(self).done_spec() == final(self).len_spec(),
    {
        if n == 0 {
            return Err(Error::Eof);
        }
        if n > self.len - self.done {
            return Err(Error::Internal("operation reported more bytes than requested"));
        }
        self.done = self.done + n;
        Ok(self.done == self.len)
    }
}

/// The buffer size that `ReadAll` starts with.
pub const READ_ALL_INITIAL: usize = 128 * 1024;

/// Reading a whole file: reads at the end of what was read so far, into the
/// rest of a buffer that doubles each time a read fills it. A read that does
/// not fill the buffer ends it.
pub struct ReadAll {
    data: Vec<u8>,
    capacity: usize,
}

/// What a read of `len` bytes at `offset` returns from a file holding `f`.
pub open spec fn file_read(f: Seq<u8>, offset: int, len: int) -> Seq<u8> {
    if offset >= f.len() {
        seq![]
    } else if offset + len <= f.len() {
        f.subrange(offset, offset + len)
    } else {
        f.subrange(offset, f.len() as int)
    }
}

/// A file holding `f` after `b` is written at `offset` (at most at its end).
pub open spec fn file_write(f: Seq<u8>, offset: int, b: Seq<u8>) -> Seq<u8> {
    if offset + b.len() >= f.len() {
        f.subrange(0, offset) + b
    } else {
        f.subrange(0, offset) + b + f.subrange(offset + b.len(), f.len() as int)
    }
}

impl ReadAll {
    /// The bytes read so far.
    pub closed spec fn data_spec(&self) -> Seq<u8> {
        self.data@
    }

    /// The size of the buffer that the next read goes into.
    pub closed spec fn capacity_spec(&self) -> usize {
        self.capacity
    }

    pub open spec fn wf(&self) -> bool {
        self.data_spec().len() < self.capacity_spec()
    }

    pub fn new() -> (r: ReadAll)
        ensures
            r.wf(),
            r.data_spec().len() == 0,
            r.capacity_spec() == READ_ALL_INITIAL,
    {
        ReadAll { data: Vec::new(), capacity: READ_ALL_INITIAL }
    }

    /// The offset of the next read.
    pub fn offset(&self) -> (r: usize)
        ensures
            r == self.data_spec().len(),
    {
        self.data.len()
    }

    /// The length of the next read: the rest of the buffer.
    pub fn request_len(&self) -> (r: usize)
        requires
            self.wf(),
        ensures
            r == self.capacity_spec() - self.data_spec().len(),
            r > 0,
    {
        self.capacity - self.data.len()
    }

    /// Takes the bytes that the last read returned. `Ok(true)` when the file
    /// is read, `Ok(false)` when the buffer filled and has doubled.
    pub fn on_read(&mut self, chunk: &[u8]) -> (r: Result<bool>)
        requires
            old(self).wf(),
        ensures
            chunk@.len() > old(self).capacity_spec() - old(self).data_spec().len() ==> r == Err::<bool, Error>(
                Error::Internal("operation reported more bytes than requested"),
            ) && final(self).data_spec() == old(self).data_spec() && final(self).capacity_spec()
                == old(self).capacity_spec(),
            chunk@.len() <= old(self).capacity_spec() - old(self).data_spec().len() ==> {
                &&& final(self).data_spec() == old(self).data_spec() + chunk@
                &&& final(self).data_spec().len() < old(self).capacity_spec() ==> r == Ok::<bool, Error>(true)
                    && final(self).capacity_spec() == old(self).capacity_spec()
                &&& final(self).data_spec().len() == old(self).capacity_spec() && old(self).capacity_spec()
                    <= usize::MAX / 2 ==> r == Ok::<bool, Error>(false) && final(self).capacity_spec()
                    == 2 * old(self).capacity_spec()
                &&& final(self).data_spec().len() == old(self).capacity_spec() && old(self).capacity_spec()
                    > usize::MAX / 2 ==> r == Err::<bool, Error>(Error::Internal("file too large to read"))
            },
            r is Ok ==> final(self).wf(),
    {
        if chunk.len() > self.capacity - self.data.len() {
            return Err(Error::Internal("operation reported more bytes than requested"));
        }
        let mut i: usize = 0;
        let ghost d0 = self.data@;
        while i < chunk.len()
            invariant
                i <= chunk@.len(),
                self.data@ == d0 + chunk@.subrange(0, i as int),
                self.capacity == old(self).capacity,
                d0 == old(self).data@,
            decreases chunk@.len() - i,
        {
            self.data.push(chunk[i]);
            i = i + 1;
            assert(self.data@ =~= d0 + chunk@.subrange(0, i as int));
        }
        assert(chunk@.subrange(0, chunk@.len() as int) =~= chunk@);
        if self.data.len() != self.capacity {
            return Ok(true);
        }
        if self.capacity > usize::MAX / 2 {
            return Err(Error::Internal("file too large to read"));
        }
        self.capacity = self.capacity * 2;
        Ok(false)
    }

    /// The bytes read.
    pub fn into_data(self) -> (r: Vec<u8>)
        ensures
            r@ == self.data_spec(),
    {
        self.data
    }
}

/// A read step of `ReadAll` on a file holding `f` keeps what was read a
/// prefix of `f`; when it ends the reading, what was read is all of `f`; and
/// while it goes on, it has read more.
pub proof fn lemma_read_all_step(f: Seq<u8>, data: Seq<u8>, capacity: int)
    requires
        data.len() < capacity,
        data.len() <= f.len(),
        data == f.subrange(0, data.len() as int),
    ensures
        ({
            let chunk = file_read(f, data.len() as int, capacity - data.len());
            let d2 = data + chunk;
            &&& chunk.len() <= capacity - data.len()
            &&& d2.len() <= f.len()
            &&& d2 == f.subrange(0, d2.len() as int)
            &&& d2.len() < capacity ==> d2 == f
            &&& d2.len() == capacity ==> d2.len() > data.len()
        }),
{
    let chunk = file_read(f, data.len() as int, capacity - data.len());
    let d2 = data + chunk;
    assert(d2 =~= f.subrange(0, d2.len() as int));
    if d2.len() < capacity {
        assert(d2 =~= f);
    }
    assert(d2.len() <= f.len());
}

/// Reading a whole empty file takes one read: it returns no bytes, does not
/// fill the buffer (so the reading ends), and leaves nothing read.
pub proof fn lemma_read_all_empty_file()
    ensures
        ({
            let chunk = file_read(Seq::<u8>::empty(), 0, READ_ALL_INITIAL as int);
            &&& chunk.len() == 0
            &&& (Seq::<u8>::empty() + chunk).len() < READ_ALL_INITIAL
            &&& Seq::<u8>::empty() + chunk == Seq::<u8>::empty()
        }),
{
    let chunk = file_read(Seq::<u8>::empty(), 0, READ_ALL_INITIAL as int);
    assert(Seq::<u8>::empty() + chunk =~= Seq::<u8>::empty());
}

/// A write step of a `TransferAll` that writes `b` from offset 0 keeps the
/// file equal to what was written so far; when the transfer completes the
/// file holds exactly `b`.
pub proof fn lemma_write_all_step(b: Seq<u8>, done: int, n: int)
    requires
        0 <= done < b.len(),
        0 < n <= b.len() - done,
    ensures
        file_write(b.subrange(0, done), done, b.subrange(done, done + n)) == b.subrange(0, done + n),
        done + n == b.len() ==> file_write(b.subrange(0, done), done, b.subrange(done, done + n))
            == b,
{
    assert(file_write(b.subrange(0, done), done, b.subrange(done, done + n)) =~= b.subrange(0, done + n));
    assert(b.subrange(0, b.len() as int) =~= b);
}

/// Writing `b` whole into an empty file and then reading the file whole gives
/// `b` back: with the file holding `b`, each read step keeps what was read a
/// prefix of `b`, and the step that ends the reading has read all of `b`.
pub proof fn lemma_write_then_read_all(b: Seq<u8>, data: Seq<u8>, capacity: int)
    requires
        data.len() < capacity,
        data.len() <= b.len(),
        data == b.subrange(0, data.len() as int),
    ensures
        ({
            let d2 = data + file_read(b, data.len() as int, capacity - data.len());
            &&& d2 == b.subrange(0, d2.len() as int)
            &&& d2.len() < capacity ==> d2 == b
        }),
{
    lemma_read_all_step(b, data, capacity);
}

/// `n`, capped to what one ring request can carry.
pub open spec fn request_len(n: usize) -> u32 {
    if n > u32::MAX as usize {
        u32::MAX
    } else {
        n as u32
    }
}

pub fn cap_request(n: usize) -> (r: u32)
    ensures
        r == request_len(n),
{
    if n > u32::MAX as usize {
        u32::MAX
    } else {
        n as u32
    }
}

impl File {
    /// The next write of a whole-buffer write at `offset` of the bytes at
    /// `data`: the rest of the buffer, at the matching place.
    pub fn write_step(&self, t: &TransferAll, data: u64, offset: u64) -> (r: IOUringFeature<Write>)
        requires
            t.wf(),
            data + t.len_spec() <= u64::MAX,
            offset + t.len_spec() <= u64::MAX,
        ensures
            r.state == OpState::Initial,
            r.method == (Write {
                fd: self.fd_spec(),
                data: (data + t.done_spec()) as u64,
                len: request_len((t.len_spec() - t.done_spec()) as usize),
                offset: (offset + t.done_spec()) as u64,
            }),
    {
        let done = t.done() as u64;
        Write::new(&self.fd, data + done, cap_request(t.remaining()), offset + done)
    }

    /// The next read of a whole-file read, into the `request_len` bytes at
    /// `data`.
    pub fn read_all_step(&self, ra: &ReadAll, data: u64) -> (r: IOUringFeature<Read>)
        requires
            ra.wf(),
        ensures
            r.state == OpState::Initial,
            r.method == (Read {
                fd: self.fd_spec(),
                data,
                len: request_len((ra.capacity_spec() - ra.data_spec().len()) as usize),
                offset: ra.data_spec().len() as u64,
            }),
    {
        Read::new(&self.fd, data, cap_request(ra.request_len()), ra.offset() as u64)
    }

    /// A read of up to `len` bytes at `offset` into the memory at `data`.
    pub fn read(&self, data: u64, len: u32, offset: u64) -> (r: IOUringFeature<Read>)
        ensures
            r.state == OpState::Initial,
            r.method == (Read { fd: self.fd_spec(), data, len, offset }),
    {
        Read::new(&self.fd, data, len, offset)
    }
}

} // verus!
