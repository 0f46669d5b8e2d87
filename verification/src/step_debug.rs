//! The interactive step debugger's state: the rendezvous directory path,
//! encoded into a fixed-capacity character buffer at activation and decoded
//! again for every handshake.
//!
//! The debugger itself spawns nothing and reads nothing: activation takes
//! the outcome of the host-run bootstrap (the rendezvous path, if the UI
//! process could be launched) and either stores the encoded path or reports
//! the fatal failure the host must act on.

use crate::text::push_char;
use vstd::prelude::*;
use vstd::string::StrSliceExecFns;

verus! {

/// Hard upper bound on the rendezvous directory path, in characters.
pub const MAX_SOCKET_DIR_PATH_LENGTH: usize = 512;

/// The padding written behind the encoded path: `len` sentinel characters.
pub open spec fn pad(len: nat) -> Seq<char> {
    Seq::new(len, |_i: int| '\0')
}

/// The fixed-capacity encoding of a rendezvous path: the path's characters
/// followed by sentinel padding up to the capacity.
pub open spec fn encoded_socket_dir(path: Seq<char>) -> Seq<char> {
    path + pad((MAX_SOCKET_DIR_PATH_LENGTH - path.len()) as nat)
}

/// What decoding recovers from a buffer: every character that is not the
/// sentinel, in order.
pub open spec fn decoded_socket_dir(buf: Seq<char>) -> Seq<char> {
    buf.filter(|c: char| c != '\0')
}

/// Encodes a rendezvous path into the fixed-capacity buffer.  A path at or
/// beyond the capacity is refused, never truncated.
#[verifier::loop_isolation(false)]
pub fn encode_socket_dir(path: &str) -> (r: Option<Vec<char>>)
    ensures
        match r {
            Some(buf) => path@.len() < MAX_SOCKET_DIR_PATH_LENGTH && buf@ == encoded_socket_dir(
                path@,
            ),
            None => path@.len() >= MAX_SOCKET_DIR_PATH_LENGTH,
        },
{
    let n = path.unicode_len();
    if n >= MAX_SOCKET_DIR_PATH_LENGTH {
        return None;
    }
    let mut buf: Vec<char> = Vec::new();
    let mut i: usize = 0;
    while i < n
        invariant
            i <= n,
            buf@ == path@.take(i as int),
        decreases n - i,
    {
        buf.push(path.get_char(i));
        proof {
            assert(path@.take(i + 1) =~= path@.take(i as int).push(path@[i as int]));
        }
        i = i + 1;
    }
    proof {
        assert(path@.take(n as int) =~= path@);
        assert(path@ + pad(0) =~= path@);
    }
    while buf.len() < MAX_SOCKET_DIR_PATH_LENGTH
        invariant
            n <= buf@.len() <= MAX_SOCKET_DIR_PATH_LENGTH,
            buf@ == path@ + pad((buf@.len() - n) as nat),
        decreases MAX_SOCKET_DIR_PATH_LENGTH - buf@.len(),
    {
        let ghost pre = buf@;
        buf.push('\0');
        proof {
            assert(pre.push('\0') =~= path@ + pad((pre.len() + 1 - n) as nat));
        }
    }
    Some(buf)
}

/// Decodes a buffer back into the path it holds, stripping the sentinel.
#[verifier::loop_isolation(false)]
pub fn decode_socket_dir(buf: &Vec<char>) -> (r: String)
    ensures
        r@ == decoded_socket_dir(buf@),
{
    let mut out = String::new();
    proof {
        reveal(Seq::filter);
        assert(out@ == decoded_socket_dir(buf@.take(0)));
    }
    let mut i: usize = 0;
    while i < buf.len()
        invariant
            i <= buf@.len(),
            out@ == decoded_socket_dir(buf@.take(i as int)),
        decreases buf@.len() - i,
    {
        let c = buf[i];
        if c != '\0' {
            push_char(&mut out, c);
        }
        proof {
            reveal(Seq::filter);
            assert(buf@.take(i + 1).drop_last() =~= buf@.take(i as int));
            assert(buf@.take(i + 1).last() == buf@[i as int]);
        }
        i = i + 1;
    }
    proof {
        assert(buf@.take(buf@.len() as int) =~= buf@);
    }
    out
}

/// Filtering keeps a sequence whole when every element satisfies the
/// predicate.
proof fn lemma_filter_all(s: Seq<char>, p: spec_fn(char) -> bool)
    requires
        forall|i: int| 0 <= i < s.len() ==> p(s[i]),
    ensures
        s.filter(p) == s,
    decreases s.len(),
{
    reveal(Seq::filter);
    if s.len() > 0 {
        lemma_filter_all(s.drop_last(), p);
        assert(s.drop_last().push(s.last()) =~= s);
    }
}

/// Filtering drops a sequence entirely when no element satisfies the
/// predicate.
proof fn lemma_filter_none(s: Seq<char>, p: spec_fn(char) -> bool)
    requires
        forall|i: int| 0 <= i < s.len() ==> !p(s[i]),
    ensures
        s.filter(p) == Seq::<char>::empty(),
    decreases s.len(),
{
    reveal(Seq::filter);
    if s.len() > 0 {
        lemma_filter_none(s.drop_last(), p);
    }
}

/// Encoding a rendezvous path below the capacity and decoding the buffer
/// recovers the path exactly, provided the path contains no sentinel
/// character of its own.
pub proof fn lemma_socket_dir_round_trip(path: Seq<char>)
    requires
        path.len() < MAX_SOCKET_DIR_PATH_LENGTH,
        forall|i: int| 0 <= i < path.len() ==> path[i] != '\0',
    ensures
        decoded_socket_dir(encoded_socket_dir(path)) == path,
{
    let p = |c: char| c != '\0';
    let padding = pad((MAX_SOCKET_DIR_PATH_LENGTH - path.len()) as nat);
    Seq::<char>::filter_distributes_over_add(path, padding, p);
    lemma_filter_all(path, p);
    lemma_filter_none(padding, p);
    assert(path + Seq::<char>::empty() =~= path);
}

/// An activation failure of the step debugger.  Both are fatal to the host:
/// there is no degraded stepping mode to fall back to.
#[derive(Copy, Clone, Debug, PartialEq, Eq, Structural)]
pub enum StepDebugError {
    /// The bootstrap did not yield a rendezvous path: the UI process could
    /// not be launched.
    UiLaunchFailed,
    /// The rendezvous path is at or beyond the buffer capacity.
    SocketDirTooLong,
}

/// The interactive step debugger.  Carries no configuration; its only state
/// is the encoded rendezvous directory path established at activation.
#[derive(Clone, Debug)]
pub struct HereticStepDebugger {
    socket_dir: Option<Vec<char>>,
}

impl Default for HereticStepDebugger {
    fn default() -> (r: Self)
        ensures
            !r.active(),
            r.wf(),
    {
        HereticStepDebugger { socket_dir: None }
    }
}

impl HereticStepDebugger {
    /// The debugger holds a rendezvous path: activation has succeeded and
    /// the debugger has not been deactivated since.
    pub closed spec fn active(&self) -> bool {
        self.socket_dir is Some
    }

    /// The encoded rendezvous buffer (meaningful only while active).
    pub closed spec fn socket_dir_chars(&self) -> Seq<char> {
        self.socket_dir.unwrap()@
    }

    /// While active, the buffer has exactly the fixed capacity.
    pub closed spec fn wf(&self) -> bool {
        self.active() ==> self.socket_dir_chars().len() == MAX_SOCKET_DIR_PATH_LENGTH
    }

    /// Tells whether activation has succeeded.
    pub fn is_active(&self) -> (r: bool)
        ensures
            r == self.active(),
    {
        self.socket_dir.is_some()
    }

    /// Completes activation from the bootstrap's outcome: `socket_dir` is
    /// the rendezvous path the spawned bootstrap returned, or `None` when it
    /// yielded none.  Stores the encoded path, or reports the fatal failure
    /// the host must abort on.
    pub fn activate(&mut self, socket_dir: Option<String>) -> (r: Result<(), StepDebugError>)
        requires
            old(self).wf(),
        ensures
            final(self).wf(),
            match socket_dir {
                None => r == Err::<(), StepDebugError>(StepDebugError::UiLaunchFailed)
                    && *final(self) == *old(self),
                Some(p) => if p@.len() >= MAX_SOCKET_DIR_PATH_LENGTH {
                    r == Err::<(), StepDebugError>(StepDebugError::SocketDirTooLong)
                        && *final(self) == *old(self)
                } else {
                    r == Ok::<(), StepDebugError>(()) && final(self).active()
                        && final(self).socket_dir_chars() == encoded_socket_dir(p@)
                },
            },
    {
        match socket_dir {
            None => Err(StepDebugError::UiLaunchFailed),
            Some(p) => {
                match encode_socket_dir(p.as_str()) {
                    None => Err(StepDebugError::SocketDirTooLong),
                    Some(buf) => {
                        self.socket_dir = Some(buf);
                        Ok(())
                    },
                }
            },
        }
    }

    /// Returns the debugger to the inactive state, dropping the rendezvous
    /// path.
    pub fn deactivate(&mut self)
        ensures
            !final(self).active(),
            final(self).wf(),
    {
        self.socket_dir = None;
    }

    /// The rendezvous directory path for the handshake, decoded from the
    /// fixed buffer; `None` while inactive.
    pub fn socket_dir_string(&self) -> (r: Option<String>)
        ensures
            match r {
                Some(s) => self.active() && s@ == decoded_socket_dir(self.socket_dir_chars()),
                None => !self.active(),
            },
    {
        match &self.socket_dir {
            Some(buf) => Some(decode_socket_dir(buf)),
            None => None,
        }
    }
}

} // verus!
