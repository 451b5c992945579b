//! The key that brings the player back while a shell has the terminal: the
//! bytes typed go on to the shell, but for the escape sequence of F12.
use vstd::prelude::*;

verus! {

/// The escape byte.
pub const ESC: u8 = 0x1b;

/// An escape that no byte followed for this many milliseconds is passed
/// on as it is.
pub const ESCAPE_TIMEOUT_MS: u64 = 40;

/// What follows the escape byte when F12 is pressed: `[24~`.
pub open spec fn f12_tail() -> Seq<u8> {
    seq![0x5bu8, 0x32u8, 0x34u8, 0x7eu8]
}

/// The bytes typed into a hidden player, parted into what goes on to the
/// shell and what may yet become the sequence of F12.
pub struct EscapeFilter {
    /// Whether an escape byte is held back.
    pub pending: bool,
    /// When the last byte was held back.
    pub since: Option<u64>,
    /// What came behind the escape byte so far.
    pub held: Vec<u8>,
}

pub open spec fn sat_minus(a: u64, b: u64) -> u64 {
    if a < b {
        0
    } else {
        (a - b) as u64
    }
}

impl EscapeFilter {
    /// What is held back is the beginning of the sequence of F12, and not
    /// all of it; nothing is held back without an escape byte.
    pub open spec fn wf(&self) -> bool {
        &&& self.held@.len() < f12_tail().len()
        &&& self.held@ =~= f12_tail().take(self.held@.len() as int)
        &&& !self.pending ==> self.held@.len() == 0 && self.since is None
    }

    /// The bytes that are held back, the escape byte first.
    pub open spec fn backlog(&self) -> Seq<u8> {
        if self.pending {
            seq![ESC] + self.held@
        } else {
            Seq::empty()
        }
    }

    /// Whether a byte completes the sequence of F12.
    pub open spec fn completes(&self, byte: u8) -> bool {
        self.pending && self.held@.push(byte) == f12_tail()
    }

    /// Whether a byte goes on with the sequence of F12 without completing
    /// it.
    pub open spec fn extends(&self, byte: u8) -> bool {
        &&& self.pending
        &&& self.held@.len() + 1 < f12_tail().len()
        &&& byte == f12_tail()[self.held@.len() as int]
    }

    /// A filter that holds nothing back.
    pub fn new() -> (filter: Self)
        ensures
            filter.wf(),
            !filter.pending,
            filter.backlog().len() == 0,
    {
        EscapeFilter { pending: false, since: None, held: Vec::new() }
    }

    fn release(&mut self, out: &mut Vec<u8>)
        requires
            old(self).pending,
        ensures
            final(self).wf(),
            !final(self).pending,
            final(out)@ == old(out)@ + old(self).backlog(),
    {
        out.push(ESC);
        let mut i: usize = 0;
        while i < self.held.len()
            invariant
                i <= self.held@.len(),
                self.held@ == old(self).held@,
                out@ == old(out)@.push(ESC) + self.held@.take(i as int),
            decreases self.held@.len() - i,
        {
            out.push(self.held[i]);
            i += 1;
            assert(out@ =~= old(out)@.push(ESC) + self.held@.take(i as int));
        }
        assert(self.held@.take(i as int) =~= self.held@);
        assert(out@ =~= old(out)@ + old(self).backlog());
        self.held.clear();
        self.pending = false;
        self.since = None;
    }

    /// Passes on what has been held back for too long: an escape that
    /// nothing followed in time was a key of its own.
    pub fn flush_stale(&mut self, now: u64, out: &mut Vec<u8>)
        requires
            old(self).wf(),
        ensures
            final(self).wf(),
            final(out)@ + final(self).backlog() == old(out)@ + old(self).backlog(),
            old(self).pending && old(self).since is Some && sat_minus(now, old(self).since->0)
                >= ESCAPE_TIMEOUT_MS ==> !final(self).pending,
            !(old(self).pending && old(self).since is Some && sat_minus(now, old(self).since->0)
                >= ESCAPE_TIMEOUT_MS) ==> *final(self) == *old(self) && final(out)@ == old(
                out,
            )@,
    {
        let stale = self.pending && match self.since {
            Some(since) => now.saturating_sub(since) >= ESCAPE_TIMEOUT_MS,
            None => false,
        };
        if stale {
            self.release(out);
            assert(out@ + self.backlog() =~= old(out)@ + old(self).backlog());
        }
    }

    /// Takes one typed byte. Returns whether it completed the sequence of
    /// F12, which is swallowed whole. Of every other byte nothing is lost:
    /// it goes on to `out`, or it is held back behind an escape byte until
    /// it is known not to belong to the sequence.
    pub fn feed(&mut self, byte: u8, now: u64, out: &mut Vec<u8>) -> (toggled: bool)
        requires
            old(self).wf(),
        ensures
            final(self).wf(),
            toggled == old(self).completes(byte),
            toggled ==> {
                &&& !final(self).pending
                &&& final(out)@ == old(out)@
            },
            !toggled ==> final(out)@ + final(self).backlog() == old(out)@ + old(self).backlog()
                + seq![byte],
            !toggled ==> final(self).pending == (old(self).extends(byte) || (!old(self).pending
                && byte == ESC)),
            final(self).pending ==> final(self).since == Some(now),
    {
        if self.pending {
            let at = self.held.len();
            let expected: u8 = if at == 0 {
                0x5b
            } else if at == 1 {
                0x32
            } else if at == 2 {
                0x34
            } else {
                0x7e
            };
            assert(expected == f12_tail()[at as int]);
            if byte == expected {
                if at == 3 {
                    assert(self.held@.push(byte) =~= f12_tail());
                    self.held.clear();
                    self.pending = false;
                    self.since = None;
                    return true;
                }
                self.held.push(byte);
                self.since = Some(now);
                assert(self.held@ =~= f12_tail().take(self.held@.len() as int));
                assert(self.held@.push(byte) != f12_tail()) by {
                    assert(old(self).held@.push(byte).len() != f12_tail().len());
                }
                assert(out@ + self.backlog() =~= old(out)@ + old(self).backlog() + seq![byte]);
                return false;
            }
            assert(old(self).held@.push(byte) != f12_tail()) by {
                if old(self).held@.push(byte).len() == f12_tail().len() {
                    assert(old(self).held@.push(byte)[at as int] == byte);
                }
            }
            self.release(out);
            out.push(byte);
            assert(out@ + self.backlog() =~= old(out)@ + old(self).backlog() + seq![byte]);
            return false;
        }
        if byte == ESC {
            self.pending = true;
            self.since = Some(now);
            assert(out@ + self.backlog() =~= old(out)@ + old(self).backlog() + seq![byte]);
            return false;
        }
        out.push(byte);
        assert(out@ + self.backlog() =~= old(out)@ + old(self).backlog() + seq![byte]);
        false
    }
}

} // verus!
