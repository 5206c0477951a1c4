//! The file abstraction at the kernel's boundary: a closed variant type
//! over the kinds of open file.  The core treats the payloads as opaque
//! handles and never branches on their internals; the filesystem and the
//! drivers interpret them.

use vstd::prelude::*;

verus! {

/// An open file: a device, a filesystem file, or a pipe endpoint.
#[derive(Clone, Copy, PartialEq, Eq, Structural, Debug)]
pub enum File {
    /// A device, by its opaque device handle.
    Device(u64),
    /// A filesystem file, by its opaque file handle.
    FsFile(u64),
    /// A pipe endpoint.
    Pipe,
}

} // verus!
