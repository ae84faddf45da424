//! The loader/run-queue boundary: a closed list of loaded programs and
//! the single operation "terminate the current program and hand control
//! to the next one", which yields that program's own fresh initial
//! context, or reports that no work remains.

use vstd::prelude::*;

use crate::context::{is_initial_context, TrapContext};

verus! {

/// One loaded program: where it starts and where its user stack tops.
#[derive(Clone, Copy, Debug, PartialEq, Eq, Structural)]
pub struct AppInfo {
    /// Entry address of the program.
    pub entry: usize,
    /// Initial stack pointer of the program.
    pub sp: usize,
}

/// The run queue: the programs in load order, the index of the next one
/// to run, and the `sstatus` value read once at boot, from which every
/// initial context is built.
pub struct Batch {
    /// The loaded programs, in the order they will run.
    pub apps: Vec<AppInfo>,
    /// Index of the next program that has not run yet.
    pub next: usize,
    /// The `sstatus` bits read at boot; initial contexts force the SPP
    /// field of this value to User.
    pub boot_sstatus: u64,
}

impl Batch {
    /// A queue in which none of `apps` has run yet.
    pub fn new(apps: Vec<AppInfo>, boot_sstatus: u64) -> (b: Batch)
        ensures
            b.apps@ == apps@,
            b.next == 0,
            b.boot_sstatus == boot_sstatus,
    {
        Batch { apps, next: 0, boot_sstatus }
    }

    /// Terminate the current program and hand control to the next one:
    /// yields the next program's own initial context, untouched by
    /// anything the finished program did, and advances the queue; when
    /// no program remains, yields nothing, which the caller takes as
    /// the designed end state of the whole system.
    pub fn run_next_app(&mut self) -> (r: Option<TrapContext>)
        ensures
            final(self).apps@ == old(self).apps@,
            final(self).boot_sstatus == old(self).boot_sstatus,
            old(self).next < old(self).apps@.len() ==> {
                &&& r matches Some(cx) && is_initial_context(
                    cx,
                    old(self).apps@[old(self).next as int].entry,
                    old(self).apps@[old(self).next as int].sp,
                    old(self).boot_sstatus,
                )
                &&& final(self).next == old(self).next + 1
            },
            old(self).next >= old(self).apps@.len() ==> {
                &&& r is None
                &&& final(self).next == old(self).next
            },
    {
        if self.next < self.apps.len() {
            let app = self.apps[self.next];
            self.next = self.next + 1;
            Some(TrapContext::app_init_context(app.entry, app.sp, self.boot_sstatus))
        } else {
            None
        }
    }
}

} // verus!
