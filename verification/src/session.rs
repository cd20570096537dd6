//! Scripted console session: a duplex byte stream to an external process,
//! modelled as a pair of in-memory buffers, and the prompt-synchronized
//! request/response protocol on top of it.
//!
//! The embedding program owns the real pipes: it appends every byte the
//! process writes with [`Console::feed`] and drains [`Console::take_output`]
//! into the process's standard input. All protocol logic — scanning for the
//! prompt sentinel, stripping it, trimming a response — is verified here.

use vstd::prelude::*;

use crate::text::bytes_to_ascii_string;

verus! {

/// Index of the first occurrence of byte `b` in `s` at or after `from`.
pub open spec fn find_byte(s: Seq<u8>, b: u8, from: int) -> Option<int>
    decreases s.len() - from when 0 <= from <= s.len()
{
    if from >= s.len() {
        None::<int>
    } else if s[from] == b {
        Some(from)
    } else {
        find_byte(s, b, from + 1)
    }
}

/// Bytes removed from both ends of a response: ASCII whitespace and the
/// double-quote character.
pub open spec fn is_trim_byte(b: u8) -> bool {
    b == 32 || b == 9 || b == 10 || b == 11 || b == 12 || b == 13 || b == 34
}

/// `s` with leading and trailing trim bytes removed.
pub open spec fn trim_bytes(s: Seq<u8>) -> Seq<u8>
    decreases s.len(),
{
    if s.len() == 0 {
        s
    } else if is_trim_byte(s.first()) {
        trim_bytes(s.drop_first())
    } else if is_trim_byte(s.last()) {
        trim_bytes(s.drop_last())
    } else {
        s
    }
}

/// A session failure: the whole orchestration treats any of these as fatal.
#[derive(Clone, Copy, Debug, PartialEq, Eq, Structural)]
pub enum SessionError {
    /// The stream ended (or has not yet produced) the prompt sentinel.
    PromptMissing,
    /// A response held bytes outside the ASCII range.
    BadEncoding,
}

/// The two buffered halves of a duplex byte stream to an external process.
pub struct Console {
    /// Bytes the process has written and the session has not yet consumed.
    pub incoming: Vec<u8>,
    /// Bytes the session has written and the embedder has not yet drained.
    pub outgoing: Vec<u8>,
    /// Label for the embedder's diagnostics.
    pub name: String,
}

impl Console {
    /// An empty console under the given label.
    pub fn new(name: String) -> (r: Console)
        ensures
            r.incoming@ == Seq::<u8>::empty(),
            r.outgoing@ == Seq::<u8>::empty(),
            r.name == name,
    {
        Console { incoming: Vec::new(), outgoing: Vec::new(), name }
    }

    /// Appends bytes read from the process's output.
    pub fn feed(&mut self, bytes: &[u8])
        ensures
            final(self).incoming@ == old(self).incoming@ + bytes@,
            final(self).outgoing == old(self).outgoing,
            final(self).name == old(self).name,
    {
        self.incoming.extend_from_slice(bytes);
    }

    /// Removes and returns everything queued for the process's input.
    pub fn take_output(&mut self) -> (r: Vec<u8>)
        ensures
            r@ == old(self).outgoing@,
            final(self).outgoing@ == Seq::<u8>::empty(),
            final(self).incoming == old(self).incoming,
            final(self).name == old(self).name,
    {
        let mut out: Vec<u8> = Vec::new();
        core::mem::swap(&mut out, &mut self.outgoing);
        out
    }
}

/// Prompt-synchronized interaction over a [`Console`]: messages out are
/// newline-terminated, reads consume up to the prompt sentinel.
pub struct ConsoleInteractor {
    pub console: Console,
    pub delimeter: u8,
}

impl ConsoleInteractor {
    /// The prompt sentinel currently in force.
    pub open spec fn delim(&self) -> u8 {
        self.delimeter
    }

    /// Wraps a console; the sentinel starts as the `>` prompt marker.
    pub fn new(console: Console) -> (r: ConsoleInteractor)
        ensures
            r.console == console,
            r.delim() == 62u8,
    {
        ConsoleInteractor { console, delimeter: 62 }
    }

    pub fn _delimeter(&self) -> (r: u8)
        ensures
            r == self.delim(),
    {
        self.delimeter
    }

    pub fn _set_delimeter(&mut self, delimeter: u8)
        ensures
            final(self).delim() == delimeter,
            final(self).console == old(self).console,
    {
        self.delimeter = delimeter;
    }

    /// Queues `msg` followed by a line terminator for the process.
    pub fn send(&mut self, msg: &[u8])
        ensures
            final(self).console.outgoing@ == old(self).console.outgoing@ + msg@ + seq![10u8],
            final(self).console.incoming == old(self).console.incoming,
            final(self).console.name == old(self).console.name,
            final(self).delim() == old(self).delim(),
    {
        self.console.outgoing.extend_from_slice(msg);
        self.console.outgoing.push(10);
    }

    /// Reads until the prompt sentinel: appends the bytes that precede the
    /// sentinel to `buf`, consumes them and the sentinel, and returns how
    /// many bytes were appended. Fails, consuming nothing, when the buffered
    /// stream holds no sentinel yet.
    pub fn recv(&mut self, buf: &mut Vec<u8>) -> (r: Result<usize, SessionError>)
        ensures
            match r {
                Ok(n) => {
                    &&& find_byte(old(self).console.incoming@, old(self).delim(), 0) == Some(
                        n as int,
                    )
                    &&& final(buf)@ == old(buf)@ + old(self).console.incoming@.take(n as int)
                    &&& final(self).console.incoming@ == old(self).console.incoming@.skip(
                        n + 1 as int,
                    )
                },
                Err(e) => {
                    &&& e == SessionError::PromptMissing
                    &&& find_byte(old(self).console.incoming@, old(self).delim(), 0) is None
                    &&& final(self).console.incoming == old(self).console.incoming
                    &&& *final(buf) == *old(buf)
                },
            },
            final(self).console.outgoing == old(self).console.outgoing,
            final(self).console.name == old(self).console.name,
            final(self).delim() == old(self).delim(),
    {
        let len = self.console.incoming.len();
        let mut i: usize = 0;
        while i < len && self.console.incoming[i] != self.delimeter
            invariant
                0 <= i <= len,
                len == self.console.incoming@.len(),
                find_byte(self.console.incoming@, self.delim(), 0) == find_byte(
                    self.console.incoming@,
                    self.delim(),
                    i as int,
                ),
            decreases len - i,
        {
            i = i + 1;
        }
        if i >= len {
            assert(find_byte(self.console.incoming@, self.delim(), i as int) is None);
            return Err(SessionError::PromptMissing);
        }
        assert(find_byte(self.console.incoming@, self.delim(), 0) == Some(i as int));
        let mut j: usize = 0;
        proof {
            assert(old(buf)@ + self.console.incoming@.take(0) =~= old(buf)@);
        }
        while j < i
            invariant
                0 <= j <= i < len,
                len == self.console.incoming@.len(),
                buf@ == old(buf)@ + self.console.incoming@.take(j as int),
            decreases i - j,
        {
            let b: u8 = self.console.incoming[j];
            buf.push(b);
            proof {
                assert(old(buf)@ + self.console.incoming@.take(j + 1 as int) =~= (old(buf)@
                    + self.console.incoming@.take(j as int)).push(b));
            }
            j = j + 1;
        }
        // drop the consumed bytes and the sentinel
        let mut rest: Vec<u8> = Vec::new();
        let mut k: usize = i + 1;
        proof {
            assert(rest@ =~= self.console.incoming@.subrange(i + 1 as int, i + 1 as int));
        }
        while k < len
            invariant
                i + 1 <= k <= len,
                len == self.console.incoming@.len(),
                rest@ == self.console.incoming@.subrange(i + 1 as int, k as int),
            decreases len - k,
        {
            let b: u8 = self.console.incoming[k];
            rest.push(b);
            proof {
                assert(self.console.incoming@.subrange(i + 1 as int, k + 1 as int) =~= self
                    .console
                    .incoming@
                    .subrange(i + 1 as int, k as int)
                    .push(b));
            }
            k = k + 1;
        }
        proof {
            assert(rest@ =~= self.console.incoming@.skip(i + 1 as int));
        }
        self.console.incoming = rest;
        Ok(i)
    }

    /// Wizard-mode exchange: waits for the next prompt, then sends a
    /// pre-scripted answer without inspecting the prompt's text.
    pub fn send_on_prompt(&mut self, msg: &[u8]) -> (r: Result<(), SessionError>)
        ensures
            match r {
                Ok(()) => {
                    &&& find_byte(old(self).console.incoming@, old(self).delim(), 0) is Some
                    &&& final(self).console.incoming@ == old(self).console.incoming@.skip(
                        find_byte(old(self).console.incoming@, old(self).delim(), 0)->0 + 1,
                    )
                    &&& final(self).console.outgoing@ == old(self).console.outgoing@ + msg@ + seq![
                        10u8,
                    ]
                },
                Err(e) => {
                    &&& e == SessionError::PromptMissing
                    &&& find_byte(old(self).console.incoming@, old(self).delim(), 0) is None
                    &&& final(self).console == old(self).console
                },
            },
            final(self).console.name == old(self).console.name,
            final(self).delim() == old(self).delim(),
    {
        let mut buf: Vec<u8> = Vec::new();
        match self.recv(&mut buf) {
            Ok(_) => {
                self.send(msg);
                Ok(())
            },
            Err(e) => Err(e),
        }
    }

    /// The trimmed text of a response body: trim bytes removed from both
    /// ends, each remaining byte one ASCII character.
    pub open spec fn response_view(raw: Seq<u8>, s: Seq<char>) -> bool {
        &&& s.len() == trim_bytes(raw).len()
        &&& forall|i: int|
            0 <= i < s.len() ==> (#[trigger] s[i]) as u8 == trim_bytes(raw)[i] && s[i]
                <= '\u{7f}'
    }

    /// Command-mode exchange: sends a command, waits for the next prompt and
    /// returns the intervening text trimmed of whitespace and quote
    /// characters. Fails when no prompt is buffered or the response is not
    /// ASCII; the command is queued either way.
    pub fn send_with_resp(&mut self, msg: &[u8]) -> (r: Result<String, SessionError>)
        ensures
            final(self).console.outgoing@ == old(self).console.outgoing@ + msg@ + seq![10u8],
            match r {
                Ok(resp) => {
                    &&& find_byte(old(self).console.incoming@, old(self).delim(), 0) is Some
                    &&& final(self).console.incoming@ == old(self).console.incoming@.skip(
                        find_byte(old(self).console.incoming@, old(self).delim(), 0)->0 + 1,
                    )
                    &&& Self::response_view(
                        old(self).console.incoming@.take(
                            find_byte(old(self).console.incoming@, old(self).delim(), 0)->0,
                        ),
                        resp@,
                    )
                },
                Err(SessionError::PromptMissing) => {
                    &&& find_byte(old(self).console.incoming@, old(self).delim(), 0) is None
                    &&& final(self).console.incoming == old(self).console.incoming
                },
                Err(SessionError::BadEncoding) => {
                    &&& find_byte(old(self).console.incoming@, old(self).delim(), 0) is Some
                    &&& final(self).console.incoming@ == old(self).console.incoming@.skip(
                        find_byte(old(self).console.incoming@, old(self).delim(), 0)->0 + 1,
                    )
                    &&& exists|i: int|
                        0 <= i < trim_bytes(
                            old(self).console.incoming@.take(
                                find_byte(old(self).console.incoming@, old(self).delim(), 0)->0,
                            ),
                        ).len() && trim_bytes(
                            old(self).console.incoming@.take(
                                find_byte(old(self).console.incoming@, old(self).delim(), 0)->0,
                            ),
                        )[i] >= 128
                },
            },
            final(self).console.name == old(self).console.name,
            final(self).delim() == old(self).delim(),
    {
        self.send(msg);
        self.recv_resp()
    }

    /// Receives one response: reads until the prompt sentinel and returns
    /// the trimmed ASCII text before it.
    pub fn recv_resp(&mut self) -> (r: Result<String, SessionError>)
        ensures
            match r {
                Ok(resp) => {
                    &&& find_byte(old(self).console.incoming@, old(self).delim(), 0) is Some
                    &&& final(self).console.incoming@ == old(self).console.incoming@.skip(
                        find_byte(old(self).console.incoming@, old(self).delim(), 0)->0 + 1,
                    )
                    &&& Self::response_view(
                        old(self).console.incoming@.take(
                            find_byte(old(self).console.incoming@, old(self).delim(), 0)->0,
                        ),
                        resp@,
                    )
                },
                Err(SessionError::PromptMissing) => {
                    &&& find_byte(old(self).console.incoming@, old(self).delim(), 0) is None
                    &&& final(self).console.incoming == old(self).console.incoming
                },
                Err(SessionError::BadEncoding) => {
                    &&& find_byte(old(self).console.incoming@, old(self).delim(), 0) is Some
                    &&& final(self).console.incoming@ == old(self).console.incoming@.skip(
                        find_byte(old(self).console.incoming@, old(self).delim(), 0)->0 + 1,
                    )
                    &&& exists|i: int|
                        0 <= i < trim_bytes(
                            old(self).console.incoming@.take(
                                find_byte(old(self).console.incoming@, old(self).delim(), 0)->0,
                            ),
                        ).len() && trim_bytes(
                            old(self).console.incoming@.take(
                                find_byte(old(self).console.incoming@, old(self).delim(), 0)->0,
                            ),
                        )[i] >= 128
                },
            },
            final(self).console.outgoing == old(self).console.outgoing,
            final(self).console.name == old(self).console.name,
            final(self).delim() == old(self).delim(),
    {
        let mut buf: Vec<u8> = Vec::new();
        match self.recv(&mut buf) {
            Ok(_) => {},
            Err(e) => {
                return Err(e);
            },
        }
        let trimmed = trim_vec(buf);
        match bytes_to_ascii_string(trimmed) {
            Some(s) => Ok(s),
            None => Err(SessionError::BadEncoding),
        }
    }
}

/// Whether a byte is trimmed from the ends of a response.
fn is_trim(b: u8) -> (r: bool)
    ensures
        r == is_trim_byte(b),
{
    b == 32 || b == 9 || b == 10 || b == 11 || b == 12 || b == 13 || b == 34
}

/// Removes leading and trailing trim bytes, matching `trim_bytes`.
pub fn trim_vec(v: Vec<u8>) -> (r: Vec<u8>)
    ensures
        r@ == trim_bytes(v@),
{
    let mut lo: usize = 0;
    let mut hi: usize = v.len();
    proof {
        assert(v@.subrange(0, v@.len() as int) =~= v@);
    }
    while lo < hi && is_trim(v[lo])
        invariant
            0 <= lo <= hi <= v@.len(),
            trim_bytes(v@) == trim_bytes(v@.subrange(lo as int, hi as int)),
        decreases hi - lo,
    {
        proof {
            let s = v@.subrange(lo as int, hi as int);
            assert(s.drop_first() =~= v@.subrange(lo + 1 as int, hi as int));
        }
        lo = lo + 1;
    }
    while lo < hi && is_trim(v[hi - 1])
        invariant
            0 <= lo <= hi <= v@.len(),
            trim_bytes(v@) == trim_bytes(v@.subrange(lo as int, hi as int)),
            lo < hi ==> !is_trim_byte(v@[lo as int]),
        decreases hi - lo,
    {
        proof {
            let s = v@.subrange(lo as int, hi as int);
            assert(s.drop_last() =~= v@.subrange(lo as int, hi - 1 as int));
        }
        hi = hi - 1;
    }
    let mut out: Vec<u8> = Vec::new();
    let mut i: usize = lo;
    while i < hi
        invariant
            lo <= i <= hi <= v@.len(),
            out@ == v@.subrange(lo as int, i as int),
        decreases hi - i,
    {
        let b: u8 = v[i];
        out.push(b);
        proof {
            assert(v@.subrange(lo as int, i + 1 as int) =~= v@.subrange(lo as int, i as int).push(
                b,
            ));
        }
        i = i + 1;
    }
    proof {
        let s = v@.subrange(lo as int, hi as int);
        if lo < hi {
            assert(!is_trim_byte(s.first()));
            assert(!is_trim_byte(s.last()));
            assert(trim_bytes(s) == s);
        } else {
            assert(s.len() == 0);
            assert(trim_bytes(s) == s);
        }
        assert(out@ =~= s);
    }
    out
}

} // verus!
