//! The error codes of a syscall outcome.

use vstd::prelude::*;

verus! {

/// One code of the fixed enumeration from which every failed syscall draws
/// its error. This layer raises three of them itself (see [`SyscallError::ENOSYS`],
/// [`SyscallError::EFAULT`] and [`SyscallError::EINVAL`]); all others come from
/// handlers and are carried through untouched.
#[allow(non_camel_case_types)]
#[derive(Clone, Copy, Debug, PartialEq, Eq, Structural)]
pub enum SyscallError {
    EDOM,
    EILSEQ,
    ERANGE,
    E2BIG,
    EACCES,
    EADDRINUSE,
    EADDRNOTAVAIL,
    EAFNOSUPPORT,
    EAGAIN,
    EALREADY,
    EBADF,
    EBADMSG,
    EBUSY,
    ECANCELED,
    ECHILD,
    ECONNABORTED,
    ECONNREFUSED,
    ECONNRESET,
    EDEADLK,
    EDESTADDRREQ,
    EDQUOT,
    EEXIST,
    /// An address range is not accessible to the caller.
    EFAULT,
    EFBIG,
    EHOSTUNREACH,
    EIDRM,
    EINPROGRESS,
    EINTR,
    /// An argument is malformed.
    EINVAL,
    EIO,
    EISCONN,
    EISDIR,
    ELOOP,
    EMFILE,
    EMLINK,
    EMSGSIZE,
    EMULTIHOP,
    ENAMETOOLONG,
    ENETDOWN,
    ENETRESET,
    ENETUNREACH,
    ENFILE,
    ENOBUFS,
    ENODEV,
    ENOENT,
    ENOEXEC,
    ENOLCK,
    ENOLINK,
    ENOMEM,
    ENOMSG,
    ENOPROTOOPT,
    ENOSPC,
    /// The requested call is not supported: its selector is outside the known set.
    ENOSYS,
    ENOTCONN,
    ENOTDIR,
    ENOTEMPTY,
    ENOTRECOVERABLE,
    ENOTSOCK,
    ENOTSUP,
    ENOTTY,
    ENXIO,
    EOPNOTSUPP,
    EOVERFLOW,
    EOWNERDEAD,
    EPERM,
    EPIPE,
    EPROTO,
    EPROTONOSUPPORT,
    EPROTOTYPE,
    EROFS,
    ESPIPE,
    ESRCH,
    ESTALE,
    ETIMEDOUT,
    ETXTBSY,
    EXDEV,
    ENODATA,
    ETIME,
    ENOKEY,
    ESHUTDOWN,
    EHOSTDOWN,
    EBADFD,
    ENOMEDIUM,
    ENOTBLK,
}

/// The tagged result of one syscall: a success value or an error code.
pub type SyscallOutcome = Result<usize, SyscallError>;

impl SyscallError {
    /// The name under which the code appears in diagnostics.
    pub open spec fn spec_name(self) -> Seq<char> {
        match self {
            SyscallError::EDOM => "EDOM"@,
            SyscallError::EILSEQ => "EILSEQ"@,
            SyscallError::ERANGE => "ERANGE"@,
            SyscallError::E2BIG => "E2BIG"@,
            SyscallError::EACCES => "EACCES"@,
            SyscallError::EADDRINUSE => "EADDRINUSE"@,
            SyscallError::EADDRNOTAVAIL => "EADDRNOTAVAIL"@,
            SyscallError::EAFNOSUPPORT => "EAFNOSUPPORT"@,
            SyscallError::EAGAIN => "EAGAIN"@,
            SyscallError::EALREADY => "EALREADY"@,
            SyscallError::EBADF => "EBADF"@,
            SyscallError::EBADMSG => "EBADMSG"@,
            SyscallError::EBUSY => "EBUSY"@,
            SyscallError::ECANCELED => "ECANCELED"@,
            SyscallError::ECHILD => "ECHILD"@,
            SyscallError::ECONNABORTED => "ECONNABORTED"@,
            SyscallError::ECONNREFUSED => "ECONNREFUSED"@,
            SyscallError::ECONNRESET => "ECONNRESET"@,
            SyscallError::EDEADLK => "EDEADLK"@,
            SyscallError::EDESTADDRREQ => "EDESTADDRREQ"@,
            SyscallError::EDQUOT => "EDQUOT"@,
            SyscallError::EEXIST => "EEXIST"@,
            SyscallError::EFAULT => "EFAULT"@,
            SyscallError::EFBIG => "EFBIG"@,
            SyscallError::EHOSTUNREACH => "EHOSTUNREACH"@,
            SyscallError::EIDRM => "EIDRM"@,
            SyscallError::EINPROGRESS => "EINPROGRESS"@,
            SyscallError::EINTR => "EINTR"@,
            SyscallError::EINVAL => "EINVAL"@,
            SyscallError::EIO => "EIO"@,
            SyscallError::EISCONN => "EISCONN"@,
            SyscallError::EISDIR => "EISDIR"@,
            SyscallError::ELOOP => "ELOOP"@,
            SyscallError::EMFILE => "EMFILE"@,
            SyscallError::EMLINK => "EMLINK"@,
            SyscallError::EMSGSIZE => "EMSGSIZE"@,
            SyscallError::EMULTIHOP => "EMULTIHOP"@,
            SyscallError::ENAMETOOLONG => "ENAMETOOLONG"@,
            SyscallError::ENETDOWN => "ENETDOWN"@,
            SyscallError::ENETRESET => "ENETRESET"@,
            SyscallError::ENETUNREACH => "ENETUNREACH"@,
            SyscallError::ENFILE => "ENFILE"@,
            SyscallError::ENOBUFS => "ENOBUFS"@,
            SyscallError::ENODEV => "ENODEV"@,
            SyscallError::ENOENT => "ENOENT"@,
            SyscallError::ENOEXEC => "ENOEXEC"@,
            SyscallError::ENOLCK => "ENOLCK"@,
            SyscallError::ENOLINK => "ENOLINK"@,
            SyscallError::ENOMEM => "ENOMEM"@,
            SyscallError::ENOMSG => "ENOMSG"@,
            SyscallError::ENOPROTOOPT => "ENOPROTOOPT"@,
            SyscallError::ENOSPC => "ENOSPC"@,
            SyscallError::ENOSYS => "ENOSYS"@,
            SyscallError::ENOTCONN => "ENOTCONN"@,
            SyscallError::ENOTDIR => "ENOTDIR"@,
            SyscallError::ENOTEMPTY => "ENOTEMPTY"@,
            SyscallError::ENOTRECOVERABLE => "ENOTRECOVERABLE"@,
            SyscallError::ENOTSOCK => "ENOTSOCK"@,
            SyscallError::ENOTSUP => "ENOTSUP"@,
            SyscallError::ENOTTY => "ENOTTY"@,
            SyscallError::ENXIO => "ENXIO"@,
            SyscallError::EOPNOTSUPP => "EOPNOTSUPP"@,
            SyscallError::EOVERFLOW => "EOVERFLOW"@,
            SyscallError::EOWNERDEAD => "EOWNERDEAD"@,
            SyscallError::EPERM => "EPERM"@,
            SyscallError::EPIPE => "EPIPE"@,
            SyscallError::EPROTO => "EPROTO"@,
            SyscallError::EPROTONOSUPPORT => "EPROTONOSUPPORT"@,
            SyscallError::EPROTOTYPE => "EPROTOTYPE"@,
            SyscallError::EROFS => "EROFS"@,
            SyscallError::ESPIPE => "ESPIPE"@,
            SyscallError::ESRCH => "ESRCH"@,
            SyscallError::ESTALE => "ESTALE"@,
            SyscallError::ETIMEDOUT => "ETIMEDOUT"@,
            SyscallError::ETXTBSY => "ETXTBSY"@,
            SyscallError::EXDEV => "EXDEV"@,
            SyscallError::ENODATA => "ENODATA"@,
            SyscallError::ETIME => "ETIME"@,
            SyscallError::ENOKEY => "ENOKEY"@,
            SyscallError::ESHUTDOWN => "ESHUTDOWN"@,
            SyscallError::EHOSTDOWN => "EHOSTDOWN"@,
            SyscallError::EBADFD => "EBADFD"@,
            SyscallError::ENOMEDIUM => "ENOMEDIUM"@,
            SyscallError::ENOTBLK => "ENOTBLK"@,
        }
    }

    /// Returns the name under which the code appears in diagnostics.
    pub fn name(&self) -> (s: &'static str)
        ensures
            s@ == self.spec_name(),
    {
        match self {
            SyscallError::EDOM => "EDOM",
            SyscallError::EILSEQ => "EILSEQ",
            SyscallError::ERANGE => "ERANGE",
            SyscallError::E2BIG => "E2BIG",
            SyscallError::EACCES => "EACCES",
            SyscallError::EADDRINUSE => "EADDRINUSE",
            SyscallError::EADDRNOTAVAIL => "EADDRNOTAVAIL",
            SyscallError::EAFNOSUPPORT => "EAFNOSUPPORT",
            SyscallError::EAGAIN => "EAGAIN",
            SyscallError::EALREADY => "EALREADY",
            SyscallError::EBADF => "EBADF",
            SyscallError::EBADMSG => "EBADMSG",
            SyscallError::EBUSY => "EBUSY",
            SyscallError::ECANCELED => "ECANCELED",
            SyscallError::ECHILD => "ECHILD",
            SyscallError::ECONNABORTED => "ECONNABORTED",
            SyscallError::ECONNREFUSED => "ECONNREFUSED",
            SyscallError::ECONNRESET => "ECONNRESET",
            SyscallError::EDEADLK => "EDEADLK",
            SyscallError::EDESTADDRREQ => "EDESTADDRREQ",
            SyscallError::EDQUOT => "EDQUOT",
            SyscallError::EEXIST => "EEXIST",
            SyscallError::EFAULT => "EFAULT",
            SyscallError::EFBIG => "EFBIG",
            SyscallError::EHOSTUNREACH => "EHOSTUNREACH",
            SyscallError::EIDRM => "EIDRM",
            SyscallError::EINPROGRESS => "EINPROGRESS",
            SyscallError::EINTR => "EINTR",
            SyscallError::EINVAL => "EINVAL",
            SyscallError::EIO => "EIO",
            SyscallError::EISCONN => "EISCONN",
            SyscallError::EISDIR => "EISDIR",
            SyscallError::ELOOP => "ELOOP",
            SyscallError::EMFILE => "EMFILE",
            SyscallError::EMLINK => "EMLINK",
            SyscallError::EMSGSIZE => "EMSGSIZE",
            SyscallError::EMULTIHOP => "EMULTIHOP",
            SyscallError::ENAMETOOLONG => "ENAMETOOLONG",
            SyscallError::ENETDOWN => "ENETDOWN",
            SyscallError::ENETRESET => "ENETRESET",
            SyscallError::ENETUNREACH => "ENETUNREACH",
            SyscallError::ENFILE => "ENFILE",
            SyscallError::ENOBUFS => "ENOBUFS",
            SyscallError::ENODEV => "ENODEV",
            SyscallError::ENOENT => "ENOENT",
            SyscallError::ENOEXEC => "ENOEXEC",
            SyscallError::ENOLCK => "ENOLCK",
            SyscallError::ENOLINK => "ENOLINK",
            SyscallError::ENOMEM => "ENOMEM",
            SyscallError::ENOMSG => "ENOMSG",
            SyscallError::ENOPROTOOPT => "ENOPROTOOPT",
            SyscallError::ENOSPC => "ENOSPC",
            SyscallError::ENOSYS => "ENOSYS",
            SyscallError::ENOTCONN => "ENOTCONN",
            SyscallError::ENOTDIR => "ENOTDIR",
            SyscallError::ENOTEMPTY => "ENOTEMPTY",
            SyscallError::ENOTRECOVERABLE => "ENOTRECOVERABLE",
            SyscallError::ENOTSOCK => "ENOTSOCK",
            SyscallError::ENOTSUP => "ENOTSUP",
            SyscallError::ENOTTY => "ENOTTY",
            SyscallError::ENXIO => "ENXIO",
            SyscallError::EOPNOTSUPP => "EOPNOTSUPP",
            SyscallError::EOVERFLOW => "EOVERFLOW",
            SyscallError::EOWNERDEAD => "EOWNERDEAD",
            SyscallError::EPERM => "EPERM",
            SyscallError::EPIPE => "EPIPE",
            SyscallError::EPROTO => "EPROTO",
            SyscallError::EPROTONOSUPPORT => "EPROTONOSUPPORT",
            SyscallError::EPROTOTYPE => "EPROTOTYPE",
            SyscallError::EROFS => "EROFS",
            SyscallError::ESPIPE => "ESPIPE",
            SyscallError::ESRCH => "ESRCH",
            SyscallError::ESTALE => "ESTALE",
            SyscallError::ETIMEDOUT => "ETIMEDOUT",
            SyscallError::ETXTBSY => "ETXTBSY",
            SyscallError::EXDEV => "EXDEV",
            SyscallError::ENODATA => "ENODATA",
            SyscallError::ETIME => "ETIME",
            SyscallError::ENOKEY => "ENOKEY",
            SyscallError::ESHUTDOWN => "ESHUTDOWN",
            SyscallError::EHOSTDOWN => "EHOSTDOWN",
            SyscallError::EBADFD => "EBADFD",
            SyscallError::ENOMEDIUM => "ENOMEDIUM",
            SyscallError::ENOTBLK => "ENOTBLK",
        }
    }
}

} // verus!
