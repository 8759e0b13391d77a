//! The debug output channel: a fixed-capacity format buffer usable without
//! an allocator, and the backends a debugger connection can take.  Moving
//! bytes over a port is platform input/output and stays outside the core;
//! the types here carry the configuration and assemble the bytes.

use vstd::prelude::*;
use vstd::pervasive::VecAdditionalExecFns;
use vstd::string::StringSliceAdditionalSpecFns;

verus! {

/// The buffer holds half a kilobyte, like the platform's output packet.
pub const FORMAT_BUFFER_SIZE: usize = 512;

/// A fixed-capacity byte buffer that collects formatted output without
/// allocating: a backing store and the count of bytes used so far.
pub struct FormatBuffer {
    pub buffer: Vec<u8>,
    pub used: usize,
}

impl FormatBuffer {
    /// The store spans the fixed capacity and the used count stays within
    /// it.
    pub open spec fn wf(self) -> bool {
        self.buffer@.len() == FORMAT_BUFFER_SIZE && self.used <= FORMAT_BUFFER_SIZE
    }

    /// An empty buffer.
    pub fn new() -> (r: Self)
        ensures
            r.wf(),
            r.used == 0,
    {
        FormatBuffer { buffer: vec![0u8; FORMAT_BUFFER_SIZE], used: 0 }
    }

    /// Appends the bytes of `s`, or refuses the whole piece when it does
    /// not fit in the remaining space.
    pub fn write_str(&mut self, s: &str) -> (r: Result<(), ()>)
        requires
            old(self).wf(),
        ensures
            final(self).wf(),
            old(self).used + s.spec_bytes().len() > FORMAT_BUFFER_SIZE ==> r is Err && *final(self)
                == *old(self),
            old(self).used + s.spec_bytes().len() <= FORMAT_BUFFER_SIZE ==> {
                &&& r is Ok
                &&& final(self).used == old(self).used + s.spec_bytes().len()
                &&& forall|j: int|
                    0 <= j < old(self).used ==> final(self).buffer@[j] == old(self).buffer@[j]
                &&& forall|j: int|
                    0 <= j < s.spec_bytes().len() ==> final(self).buffer@[old(self).used + j]
                        == s.spec_bytes()[j]
                &&& forall|j: int|
                    old(self).used + s.spec_bytes().len() <= j < FORMAT_BUFFER_SIZE ==> final(self).buffer@[j] == old(self).buffer@[j]
            },
    {
        let current = s.as_bytes();
        if FORMAT_BUFFER_SIZE - self.used < current.len() {
            return Err(());
        }
        let mut i: usize = 0;
        while i < current.len()
            invariant
                i <= current@.len(),
                current@ == s.spec_bytes(),
                self.used == old(self).used,
                self.used + current@.len() <= FORMAT_BUFFER_SIZE,
                self.buffer@.len() == FORMAT_BUFFER_SIZE,
                forall|j: int| 0 <= j < self.used ==> self.buffer@[j] == old(self).buffer@[j],
                forall|j: int| 0 <= j < i ==> self.buffer@[self.used + j] == current@[j],
                forall|j: int|
                    self.used + current@.len() <= j < FORMAT_BUFFER_SIZE ==> self.buffer@[j] == old(self).buffer@[j],
            decreases current@.len() - i,
        {
            let b = current[i];
            self.buffer.set(self.used + i, b);
            i += 1;
        }
        self.used = self.used + current.len();
        Ok(())
    }
}

/// A backend a debugger connection can use: it moves bytes in and out over
/// whatever channel it owns and reports whether the transfer happened.
pub trait DebuggerBackend {
    fn read(self, buffer: &mut Vec<u8>, length: usize) -> bool;

    fn write(self, buffer: &Vec<u8>, length: usize) -> bool;
}

/// The QEMU ISA debug console: a single fixed port the platform writes
/// bytes to; the port transfer itself is platform input/output performed
/// outside the core.
#[derive(Clone, Copy, PartialEq, Eq, Structural, Debug)]
pub struct QemuDebugConDebugger {
    pub port_base: u16,
}

impl QemuDebugConDebugger {
    pub fn new(port_base: u16) -> (r: QemuDebugConDebugger)
        ensures
            r.port_base == port_base,
    {
        QemuDebugConDebugger { port_base }
    }
}

/// The backend used while no debugger is configured: it transfers nothing.
#[derive(Clone, Copy, PartialEq, Eq, Structural, Debug)]
pub struct UnknownDebugger;

impl DebuggerBackend for UnknownDebugger {
    fn read(self, buffer: &mut Vec<u8>, length: usize) -> (r: bool)
        ensures
            !r,
            *final(buffer) == *old(buffer),
    {
        let _ = length;
        false
    }

    fn write(self, buffer: &Vec<u8>, length: usize) -> (r: bool)
        ensures
            !r,
    {
        let _ = buffer;
        let _ = length;
        false
    }
}

/// The configured debugger connection, if any.
pub enum Debugger {
    QemuDebugCon(QemuDebugConDebugger),
    Unknown,
}

} // verus!
