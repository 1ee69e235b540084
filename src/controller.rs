//! The mailbox controller: one handle that owns the `tohost` and `fromhost`
//! registers and runs one console transaction per call.
//!
//! Every register access the controller makes is appended to its access
//! trace, so the order and content of the traffic on the mailbox can be
//! stated in contracts and inspected by a test harness.
use vstd::prelude::*;

use crate::protocol::{
    char_of, decode_char, encode_read_char, encode_write_char, read_char_request,
    write_char_request,
};

verus! {

/// Total size of the mailbox: two 8-byte words.
pub const REG_TOTAL_SIZE: usize = 2 * 8;

/// Number of discarded loads of `tohost` after each store. The simulator
/// drops characters when stores arrive too quickly one after another; this
/// many loads were found to slow the traffic down enough. It is a workaround,
/// not a synchronisation guarantee.
pub const PACING_LOADS: u32 = 100;

/// Possible error conditions. The host interface cannot fail at present;
/// the type leaves room for faults a later interface may report.
#[derive(Clone, Copy, Debug, PartialEq, Eq, Structural)]
pub enum Fault {
    Success,
}

/// One access to a mailbox register.
#[derive(Clone, Copy, Debug, PartialEq, Eq, Structural)]
pub enum Access {
    /// A store of a request word to `tohost`.
    StoreToHost(u64),
    /// A pacing load of `tohost`, whose value is discarded.
    LoadToHost,
    /// A load of `fromhost`, with the word it returned.
    LoadFromHost(u64),
}

/// The `tohost` register: the word the guest last stored for the host.
pub struct ToHost {
    word: u64,
}

/// The `fromhost` register: the word the host placed for the guest.
pub struct FromHost {
    word: u64,
}

impl ToHost {
    pub closed spec fn spec_word(&self) -> u64 {
        self.word
    }

    /// A `tohost` register that holds `word`.
    pub fn holding(word: u64) -> (r: ToHost)
        ensures
            r.spec_word() == word,
    {
        ToHost { word }
    }

    fn store(&mut self, word: u64)
        ensures
            final(self).spec_word() == word,
    {
        self.word = word;
    }

    fn load(&self) -> (r: u64)
        ensures
            r == self.spec_word(),
    {
        self.word
    }
}

impl FromHost {
    pub closed spec fn spec_word(&self) -> u64 {
        self.word
    }

    /// A `fromhost` register that holds `word`.
    pub fn holding(word: u64) -> (r: FromHost)
        ensures
            r.spec_word() == word,
    {
        FromHost { word }
    }

    fn load(&self) -> (r: u64)
        ensures
            r == self.spec_word(),
    {
        self.word
    }
}

/// The accesses that pace a store: `n` discarded loads of `tohost`.
pub open spec fn pacing(n: nat) -> Seq<Access> {
    Seq::new(n, |i: int| Access::LoadToHost)
}

/// The accesses of one request: the store of `word` to `tohost`, then the
/// pacing loads.
pub open spec fn request_accesses(word: u64) -> Seq<Access> {
    seq![Access::StoreToHost(word)] + pacing(PACING_LOADS as nat)
}

/// The accesses of a character write.
pub open spec fn send_accesses(byte: u8) -> Seq<Access> {
    request_accesses(write_char_request(byte))
}

/// The accesses of a character read that found `response` in `fromhost`.
pub open spec fn read_accesses(response: u64) -> Seq<Access> {
    request_accesses(read_char_request()) + seq![Access::LoadFromHost(response)]
}

/// A character write stores its request to `tohost` exactly once, as its
/// first access, and never loads `fromhost`.
pub proof fn send_stores_once(byte: u8)
    ensures
        send_accesses(byte).len() == PACING_LOADS + 1,
        send_accesses(byte)[0] == Access::StoreToHost(write_char_request(byte)),
        forall|i: int|
            0 < i < send_accesses(byte).len() ==> !(send_accesses(byte)[i] is StoreToHost),
        forall|i: int|
            0 <= i < send_accesses(byte).len() ==> !(send_accesses(byte)[i] is LoadFromHost),
{
}

/// A character read stores the read request to `tohost` exactly once, as its
/// first access, and loads `fromhost` exactly once, as its last access, after
/// the store.
pub proof fn read_stores_before_loading(response: u64)
    ensures
        read_accesses(response).len() == PACING_LOADS + 2,
        read_accesses(response)[0] == Access::StoreToHost(read_char_request()),
        read_accesses(response).last() == Access::LoadFromHost(response),
        forall|i: int|
            0 < i < read_accesses(response).len() ==> !(read_accesses(response)[i] is StoreToHost),
        forall|i: int|
            0 <= i < read_accesses(response).len() - 1 ==> !(
            read_accesses(response)[i] is LoadFromHost),
{
}

/// The controller handle. Owning it is the right to use the mailbox; a
/// caller that shares the mailbox between threads must serialise the calls.
pub struct HTIF {
    to_host: ToHost,
    from_host: FromHost,
    accesses: Vec<Access>,
}

impl HTIF {
    /// The word in `tohost`.
    pub closed spec fn to_host_word(&self) -> u64 {
        self.to_host.spec_word()
    }

    /// The word in `fromhost`.
    pub closed spec fn from_host_word(&self) -> u64 {
        self.from_host.spec_word()
    }

    /// Every register access made through this handle, oldest first.
    pub closed spec fn trace(&self) -> Seq<Access> {
        self.accesses@
    }

    /// The word in `tohost`, read without touching the register.
    pub fn peek_to_host(&self) -> (r: u64)
        ensures
            r == self.to_host_word(),
    {
        self.to_host.word
    }

    /// The word in `fromhost`, read without touching the register.
    pub fn peek_from_host(&self) -> (r: u64)
        ensures
            r == self.from_host_word(),
    {
        self.from_host.word
    }

    /// Every register access made through this handle, oldest first.
    pub fn accesses(&self) -> (r: &Vec<Access>)
        ensures
            r@ == self.trace(),
    {
        &self.accesses
    }

    /// The host places `word` in `fromhost`, as its answer to a request.
    pub fn host_reply(&mut self, word: u64)
        ensures
            final(self).from_host_word() == word,
            final(self).to_host_word() == old(self).to_host_word(),
            final(self).trace() == old(self).trace(),
    {
        self.from_host.word = word;
    }

    /// A controller over zeroed registers.
    pub fn new() -> (r: Result<HTIF, Fault>)
        ensures
            r is Ok,
            r->Ok_0.to_host_word() == 0,
            r->Ok_0.from_host_word() == 0,
            r->Ok_0.trace() == Seq::<Access>::empty(),
    {
        Ok(HTIF::with_registers(ToHost::holding(0), FromHost::holding(0)))
    }

    /// A controller over the given registers.
    pub fn with_registers(to_host: ToHost, from_host: FromHost) -> (r: HTIF)
        ensures
            r.to_host_word() == to_host.spec_word(),
            r.from_host_word() == from_host.spec_word(),
            r.trace() == Seq::<Access>::empty(),
    {
        HTIF { to_host, from_host, accesses: Vec::new() }
    }

    /// Size of the mailbox in bytes.
    pub fn size(&self) -> (r: usize)
        ensures
            r == 16,
    {
        REG_TOTAL_SIZE
    }

    /// Stores `word` to `tohost`, then paces with discarded loads of it.
    fn write_to_host(&mut self, word: u64)
        ensures
            final(self).to_host_word() == word,
            final(self).from_host_word() == old(self).from_host_word(),
            final(self).trace() == old(self).trace() + request_accesses(word),
    {
        let ghost start = self.accesses@;
        self.to_host.store(word);
        self.accesses.push(Access::StoreToHost(word));
        let mut i: u32 = 0;
        while i < PACING_LOADS
            invariant
                i <= PACING_LOADS,
                self.to_host.spec_word() == word,
                self.from_host == old(self).from_host,
                self.accesses@ == start + seq![Access::StoreToHost(word)] + pacing(i as nat),
            decreases PACING_LOADS - i,
        {
            let _ = self.to_host.load();
            self.accesses.push(Access::LoadToHost);
            i = i + 1;
            assert(pacing(i as nat) =~= pacing((i - 1) as nat).push(Access::LoadToHost));
        }
        assert(start + seq![Access::StoreToHost(word)] + pacing(PACING_LOADS as nat) =~= start
            + request_accesses(word));
    }

    fn read_from_host(&mut self) -> (r: u64)
        ensures
            r == old(self).from_host_word(),
            final(self).to_host_word() == old(self).to_host_word(),
            final(self).from_host_word() == old(self).from_host_word(),
            final(self).trace() == old(self).trace().push(Access::LoadFromHost(r)),
    {
        let word = self.from_host.load();
        self.accesses.push(Access::LoadFromHost(word));
        word
    }

    /// Writes `to_send` to the host console.
    pub fn send_byte(&mut self, to_send: u8) -> (r: Result<(), Fault>)
        ensures
            r == Ok::<(), Fault>(()),
            final(self).to_host_word() == write_char_request(to_send),
            final(self).from_host_word() == old(self).from_host_word(),
            final(self).trace() == old(self).trace() + send_accesses(to_send),
    {
        let request = encode_write_char(to_send);
        self.write_to_host(request);
        Ok(())
    }

    /// Reads one character from the host console: asks for it through
    /// `tohost`, then takes it from the low 8 bits of `fromhost`.
    pub fn read_byte(&mut self) -> (r: Result<u8, Fault>)
        ensures
            r == Ok::<u8, Fault>(char_of(old(self).from_host_word())),
            final(self).to_host_word() == read_char_request(),
            final(self).from_host_word() == old(self).from_host_word(),
            final(self).trace() == old(self).trace() + read_accesses(old(self).from_host_word()),
    {
        let request = encode_read_char();
        self.write_to_host(request);
        let response = self.read_from_host();
        assert(old(self).trace() + request_accesses(read_char_request()) + seq![
            Access::LoadFromHost(response),
        ] =~= old(self).trace() + read_accesses(response));
        Ok(decode_char(response))
    }
}

} // verus!
