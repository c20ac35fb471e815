//! The syscall entry layer of a kernel: routing of call numbers to handlers,
//! marshaling of argument buffers across the privilege boundary, per-call
//! trace records and the memory tag handler.

pub mod arg;
pub mod dispatch;
pub mod error;
pub mod exec_args;
pub mod mem_tags;
pub mod render;
pub mod stack;
pub mod trace;
pub mod user_memory;

pub use arg::SysArg;
pub use dispatch::{generic_do_syscall, Call, Dispatch, DispatchTable, Handler, Rejection};
pub use error::{SyscallError, SyscallOutcome};
pub use exec_args::{exec_args_from_slice, ExecArgs};
pub use mem_tags::{tag_memory, MemoryTag, ThreadMemoryTagMap};
pub use stack::StackHelper;
pub use trace::{Emission, SysLog};
pub use user_memory::{Mapping, UserMemory};
