//! Which kind of tokio I/O object stands behind a Ruby I/O object.
use vstd::prelude::*;
use vstd::string::*;

verus! {

/// The kind of I/O object behind a Ruby I/O object.
#[derive(Debug, Clone, Copy, PartialEq, Eq, Structural)]
pub enum BackingIo {
    UnixSocket,
    TcpSocket,
    File,
    UdpSocket,
}

/// Why no I/O object can stand behind a Ruby value ("Could not create
/// BackingIo from value ... and RawFd ...").
#[derive(Debug, Clone, Copy, PartialEq, Eq, Structural)]
pub enum BackingIoError {
    UnsupportedClass,
}

/// The kind of I/O object for a Ruby object of class `classname`:
/// `UNIXSocket`, `IO` or `File`, `UDPSocket`, `Socket`; no other class.
pub open spec fn backing_for_class(classname: Seq<char>) -> Option<BackingIo> {
    if classname == "UNIXSocket"@ {
        Some(BackingIo::UnixSocket)
    } else if classname == "IO"@ || classname == "File"@ {
        Some(BackingIo::File)
    } else if classname == "UDPSocket"@ {
        Some(BackingIo::UdpSocket)
    } else if classname == "Socket"@ {
        Some(BackingIo::TcpSocket)
    } else {
        None
    }
}

impl BackingIo {
    /// The kind of I/O object for a Ruby object of class `classname`.
    pub fn from_classname(classname: &str) -> (r: Result<BackingIo, BackingIoError>)
        ensures
            match backing_for_class(classname@) {
                Some(k) => r == Ok::<BackingIo, BackingIoError>(k),
                None => r == Err::<BackingIo, BackingIoError>(BackingIoError::UnsupportedClass),
            },
    {
        let name = String::from_str(classname);
        if name == String::from_str("UNIXSocket") {
            Ok(BackingIo::UnixSocket)
        } else if name == String::from_str("IO") || name == String::from_str("File") {
            Ok(BackingIo::File)
        } else if name == String::from_str("UDPSocket") {
            Ok(BackingIo::UdpSocket)
        } else if name == String::from_str("Socket") {
            Ok(BackingIo::TcpSocket)
        } else {
            Err(BackingIoError::UnsupportedClass)
        }
    }

    /// The name this kind is shown under.
    pub fn name(&self) -> (s: &'static str)
        ensures
            s@ == match self {
                BackingIo::UnixSocket => "UNIXSocket"@,
                BackingIo::TcpSocket => "TCPSocket"@,
                BackingIo::File => "File"@,
                BackingIo::UdpSocket => "UDPSocket"@,
            },
    {
        match self {
            BackingIo::UnixSocket => "UNIXSocket",
            BackingIo::TcpSocket => "TCPSocket",
            BackingIo::File => "File",
            BackingIo::UdpSocket => "UDPSocket",
        }
    }

    /// Whether the object can be read and written as a byte stream; UDP
    /// sockets cannot yet.
    pub fn supports_streams(&self) -> (b: bool)
        ensures
            b == !(self == BackingIo::UdpSocket),
    {
        match self {
            BackingIo::UdpSocket => false,
            _ => true,
        }
    }

    /// Whether readiness comes from the OS (sockets) rather than being
    /// assumed (regular files).
    pub fn polls_readiness(&self) -> (b: bool)
        ensures
            b == !(self == BackingIo::File),
    {
        match self {
            BackingIo::File => false,
            _ => true,
        }
    }
}

/// What `nix::fcntl::OFlag::from_bits_truncate` keeps of `bits`: the
/// flags nix knows on this platform.
pub uninterp spec fn oflag_known_bits(bits: i32) -> i32;

/// `nix::fcntl::OFlag::from_bits_truncate`: the flags of `bits` that nix
/// knows, as bits; none that `bits` lacks, and all of them known, so that
/// truncating them again keeps them as they are.
#[verifier::external_body]
fn oflag_from_bits_truncate(bits: i32) -> (r: i32)
    ensures
        r == oflag_known_bits(bits),
        r & bits == r,
        oflag_known_bits(r) == r,
{
    nix::fcntl::OFlag::from_bits_truncate(bits).bits()
}

/// The flags nix knows of `bits`, with `O_NONBLOCK` added: what
/// `nix::fcntl::OFlag::insert(O_NONBLOCK)` makes of them.
pub uninterp spec fn oflag_with_nonblock(bits: i32) -> i32;

/// `nix::fcntl::OFlag::insert` with `OFlag::O_NONBLOCK`, on the flags of
/// `bits` (taken as `OFlag` by `from_bits_truncate`). Hands back the
/// resulting bits and the bits of `O_NONBLOCK` itself: the result is the
/// known flags of `bits` joined with `O_NONBLOCK`, which is not empty. The
/// platform's value of `O_NONBLOCK` is left unsaid.
#[verifier::external_body]
fn oflag_insert_nonblock(bits: i32) -> (r: (i32, i32))
    ensures
        r.0 == oflag_with_nonblock(bits),
        r.0 == oflag_known_bits(bits) | r.1,
        r.1 != 0,
{
    let nonblock = nix::fcntl::OFlag::O_NONBLOCK;
    let mut flags = nix::fcntl::OFlag::from_bits_truncate(bits);
    flags.insert(nonblock);
    (flags.bits(), nonblock.bits())
}

/// Puts a file descriptor in non-blocking mode for as long as it lives,
/// and remembers the flags to restore.
#[derive(Debug)]
pub struct NonBlockGuard {
    raw_fd: i32,
    old_flags: i32,
    nonblock: i32,
}

impl NonBlockGuard {
    /// The descriptor.
    pub closed spec fn fd(&self) -> i32 {
        self.raw_fd
    }

    /// The flags to restore.
    pub closed spec fn restore_flags(&self) -> i32 {
        self.old_flags
    }

    /// The bits of the non-blocking flag (`O_NONBLOCK`).
    pub closed spec fn nonblock_flag(&self) -> i32 {
        self.nonblock
    }

    /// For descriptor `fd` whose status flags are `current_flags`: the guard
    /// that restores the known flags, and the flags to set now: those with
    /// the non-blocking flag added.
    pub fn new(fd: i32, current_flags: i32) -> (r: (NonBlockGuard, i32))
        ensures
            r.0.fd() == fd,
            r.0.restore_flags() == oflag_known_bits(current_flags),
            r.1 == oflag_with_nonblock(r.0.restore_flags()),
            r.1 == r.0.restore_flags() | r.0.nonblock_flag(),
            r.0.nonblock_flag() != 0,
            r.1 & r.0.restore_flags() == r.0.restore_flags(),
            r.1 & r.0.nonblock_flag() == r.0.nonblock_flag(),
    {
        let old_flags = oflag_from_bits_truncate(current_flags);
        let (new_flags, nonblock) = oflag_insert_nonblock(old_flags);
        assert(new_flags & nonblock == nonblock && new_flags & old_flags == old_flags) by (bit_vector)
            requires
                new_flags == old_flags | nonblock,
        ;
        (NonBlockGuard { raw_fd: fd, old_flags, nonblock }, new_flags)
    }

    /// The descriptor.
    pub fn raw_fd(&self) -> (fd: i32)
        ensures
            fd == self.fd(),
    {
        self.raw_fd
    }

    /// The bits of the non-blocking flag.
    pub fn nonblock_bits(&self) -> (f: i32)
        ensures
            f == self.nonblock_flag(),
    {
        self.nonblock
    }

    /// The flags to restore when the guard ends.
    pub fn old_flags(&self) -> (f: i32)
        ensures
            f == self.restore_flags(),
    {
        self.old_flags
    }
}

} // verus!
