use vstd::prelude::*;
use crate::error::DebugError;
use crate::process::{mem_extends, Process};
use crate::{patch_word, patched_word};

verus! {

/// A single patch site. It does not own the process in which it is
/// relevant: every mutating operation takes the `Process` as an explicit
/// argument, and the relationship is managed at a higher level, in the
/// `Debugger`.
#[derive(Debug, Clone, Copy)]
pub struct Breakpoint {
    /// The address of the breakpoint in the process; must be absolute.
    pub addr: u64,
    /// The word read from the process at the breakpoint address before
    /// patching; meaningful only while the breakpoint is enabled.
    pub saved: u64,
    /// Whether or not this breakpoint is enabled.
    pub enabled: bool,
}

impl Breakpoint {
    /// A new breakpoint for `addr`, constructed disabled.
    pub fn new(addr: u64) -> (r: Breakpoint)
        ensures
            r.addr == addr,
            !r.enabled,
            r.saved == 0,
    {
        Breakpoint { addr, saved: 0, enabled: false }
    }

    /// Enables the breakpoint within the given process: records the current
    /// word at `addr`, then overwrites only its trap-opcode byte. Enabling
    /// an already-enabled breakpoint changes nothing, in the target or in
    /// the breakpoint. On failure the breakpoint stays disabled and no
    /// known word of the target changes: the read completes before any
    /// write is attempted, and a failed write writes nothing.
    pub fn enable(&mut self, process: &mut Process) -> (r: Result<(), DebugError>)
        ensures
            final(process).pid == old(process).pid,
            old(self).enabled ==> r is Ok && *final(self) == *old(self) && *final(process)
                == *old(process),
            !old(self).enabled && r is Ok ==> {
                &&& final(self).addr == old(self).addr
                &&& final(self).enabled
                &&& final(process).mem() == old(process).mem().insert(
                    old(self).addr,
                    patched_word(final(self).saved),
                )
                &&& old(process).mem().contains_key(old(self).addr) ==> final(self).saved == old(process).mem()[old(self).addr]
            },
            r is Err ==> r->Err_0 is TraceFailure && *final(self) == *old(self) && mem_extends(
                final(process).mem(),
                old(process).mem(),
            ),
    {
        if self.enabled {
            return Ok(());
        }

        let saved = match process.read(self.addr) {
            Ok(w) => w as u64,
            Err(e) => {
                return Err(e);
            }
        };
        let word = patch_word(saved);
        match process.write(self.addr, word) {
            Ok(()) => {
                self.saved = saved;
                self.enabled = true;
                proof {
                    assert(process.mem() =~= old(process).mem().insert(
                        self.addr,
                        patched_word(saved),
                    ));
                }
                Ok(())
            }
            Err(e) => {
                proof {
                    assert forall|a: u64| old(process).mem().contains_key(a) implies process.mem().contains_key(a)
                    && process.mem()[a] == old(process).mem()[a] by {
                        if a == old(self).addr {
                            assert(process.mem()[a] == saved);
                        }
                    }
                }
                Err(e)
            }
        }
    }

    /// Disables the breakpoint in the traced process by writing the saved
    /// word back verbatim: the exact original bit pattern, not just the
    /// opcode byte. Disabling an already-disabled breakpoint changes
    /// nothing; on a failed write, nothing changes at all.
    pub fn disable(&mut self, process: &mut Process) -> (r: Result<(), DebugError>)
        ensures
            final(process).pid == old(process).pid,
            !old(self).enabled ==> r is Ok && *final(self) == *old(self) && *final(process)
                == *old(process),
            old(self).enabled && r is Ok ==> {
                &&& final(self).addr == old(self).addr
                &&& !final(self).enabled
                &&& final(self).saved == old(self).saved
                &&& final(process).mem() == old(process).mem().insert(
                    old(self).addr,
                    old(self).saved,
                )
            },
            r is Err ==> r->Err_0 is TraceFailure && *final(self) == *old(self) && *final(process)
                == *old(process),
    {
        if !self.enabled {
            return Ok(());
        }

        match process.write(self.addr, self.saved) {
            Ok(()) => {
                self.enabled = false;
                Ok(())
            }
            Err(e) => Err(e),
        }
    }
}

/// Law: patch locality. The patched form of a word differs from the word
/// only in the opcode byte: the low byte becomes the trap opcode and every
/// other byte of the word is preserved.
pub proof fn lemma_patch_locality(w: u64)
    ensures
        patched_word(w) & 0xff == 0xcc,
        patched_word(w) & 0xffff_ffff_ffff_ff00 == w & 0xffff_ffff_ffff_ff00,
{
    assert(((w & 0xffff_ffff_ffff_ff00) | 0xcc) & 0xff == 0xcc) by (bit_vector);
    assert((((w & 0xffff_ffff_ffff_ff00) | 0xcc) & 0xffff_ffff_ffff_ff00) == (w
        & 0xffff_ffff_ffff_ff00)) by (bit_vector);
}

/// Law: enable/disable round trip. For any address whose word is known,
/// patching the trap opcode into that word and then writing the pre-patch
/// word back leaves the memory exactly as it began, bit for bit — the
/// effect of `Breakpoint::enable` followed by `Breakpoint::disable`, as
/// their contracts state those effects.
pub proof fn lemma_enable_disable_round_trip(mem: Map<u64, u64>, addr: u64)
    requires
        mem.contains_key(addr),
    ensures
        mem.insert(addr, patched_word(mem[addr])).insert(addr, mem[addr]) == mem,
{
    assert(mem.insert(addr, patched_word(mem[addr])).insert(addr, mem[addr]) =~= mem);
}

} // verus!
