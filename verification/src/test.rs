use crate::consts;
use crate::driver::R64Driver;
use crate::proto::spec_meta_byte_len;
use crate::types::Command;
use vstd::prelude::*;

verus! {

/// A state of the mock device: idle, in the middle of one command, or done.
///
/// Fixed-arity commands move through their own state to `Finished` in one
/// argument word; transfer commands move through an offset state, a metadata
/// state and a data state that counts words down to zero; a version request
/// moves through two read states, one for the identity word and one for the
/// device magic.
#[derive(Copy, Clone, Debug, PartialEq, Eq, Structural)]
pub enum State {
    Idle,
    LoadFromPCOffset,
    LoadFromPCMeta,
    LoadFromPCData,
    DumpToPCOffset,
    DumpToPCMeta,
    DumpToPCData,
    SetSaveType,
    SetCICType,
    SetCIExtended,
    VersionRequest,
    VersionMagic,
    Finished,
}

/// The mock device: a pure finite-state machine over the device's side of the
/// wire protocol. A write from the host steps `spec_write`; a read steps
/// `spec_read`. The three response fields configure what the device answers,
/// so that conformance tests can also present a misbehaving device.
#[derive(Copy, Clone, Debug)]
pub struct R64DriveTest {
    /// Where in a command exchange the device stands.
    pub state: State,
    /// The command being served, echoed into the completion word.
    pub command: Command,
    /// Words of transfer payload still owed in a data state.
    pub data_len: u32,
    /// The identity word answered first to a version request.
    pub version_word: u32,
    /// The word answered second to a version request.
    pub magic_word: u32,
    /// An override for every read in `Finished`; `None` answers the
    /// protocol-conformant completion word.
    pub finished_word: Option<u32>,
}

impl R64DriveTest {
    /// The state a fresh, protocol-conformant mock device starts in.
    pub open spec fn spec_initial() -> R64DriveTest {
        R64DriveTest {
            state: State::Idle,
            command: Command::Unexpected,
            data_len: 0,
            version_word: 0x4200_00CD,
            magic_word: consts::MAGIC,
            finished_word: None,
        }
    }

    /// One word written by the host: the mock after the step, and the byte
    /// count it acknowledges, or an error tagging the offending state and
    /// word. From `Idle` the word's top byte selects the command; a write in
    /// any state not expecting one is a protocol violation.
    pub open spec fn spec_write(self, val: u32) -> (R64DriveTest, Result<
        usize,
        (&'static str, u32),
    >) {
        match self.state {
            State::Idle => {
                let cmd = Command::spec_from_u32(val >> 24);
                match cmd {
                    Command::Unexpected => (self, Err(("unexpected command in state Idle", val))),
                    Command::VersionRequest => (
                        R64DriveTest { state: State::VersionRequest, command: cmd, ..self },
                        Ok(4),
                    ),
                    Command::SetSaveType => (
                        R64DriveTest { state: State::SetSaveType, command: cmd, ..self },
                        Ok(4),
                    ),
                    Command::SetCICType => (
                        R64DriveTest { state: State::SetCICType, command: cmd, ..self },
                        Ok(4),
                    ),
                    Command::SetCIExtended => (
                        R64DriveTest { state: State::SetCIExtended, command: cmd, ..self },
                        Ok(4),
                    ),
                    Command::LoadFromPC => (
                        R64DriveTest { state: State::LoadFromPCOffset, command: cmd, ..self },
                        Ok(4),
                    ),
                    Command::DumpToPC => (
                        R64DriveTest { state: State::DumpToPCOffset, command: cmd, ..self },
                        Ok(4),
                    ),
                }
            },
            State::SetSaveType => (R64DriveTest { state: State::Finished, ..self }, Ok(4)),
            State::SetCICType => (R64DriveTest { state: State::Finished, ..self }, Ok(4)),
            State::SetCIExtended => (R64DriveTest { state: State::Finished, ..self }, Ok(4)),
            State::LoadFromPCOffset => (R64DriveTest { state: State::LoadFromPCMeta, ..self }, Ok(
                4,
            )),
            State::LoadFromPCMeta => {
                let words = spec_meta_byte_len(val) / 4;
                if words == 0 {
                    (R64DriveTest { state: State::Finished, data_len: 0, ..self }, Ok(4))
                } else {
                    (R64DriveTest { state: State::LoadFromPCData, data_len: words, ..self }, Ok(4))
                }
            },
            State::LoadFromPCData => {
                if self.data_len <= 1 {
                    (R64DriveTest { state: State::Finished, data_len: 0, ..self }, Ok(4))
                } else {
                    (R64DriveTest { data_len: (self.data_len - 1) as u32, ..self }, Ok(4))
                }
            },
            State::DumpToPCOffset => (R64DriveTest { state: State::DumpToPCMeta, ..self }, Ok(4)),
            State::DumpToPCMeta => {
                let words = spec_meta_byte_len(val) / 4;
                if words == 0 {
                    (R64DriveTest { state: State::Finished, data_len: 0, ..self }, Ok(4))
                } else {
                    (R64DriveTest { state: State::DumpToPCData, data_len: words, ..self }, Ok(4))
                }
            },
            State::DumpToPCData => (self, Err(("invalid packet in state DumpToPCData", val))),
            State::VersionRequest => (self, Err(("invalid packet in state VersionRequest", val))),
            State::VersionMagic => (self, Err(("invalid packet in state VersionMagic", val))),
            State::Finished => (self, Err(("invalid packet in state Finished", val))),
        }
    }

    /// One word read by the host: the mock after the step, and the word the
    /// device answers, or an error tagging the state read from. A version
    /// request answers the identity word, then the magic word; a dump data
    /// state answers one payload word per read, counting down; `Finished`
    /// answers the completion word of the command served (or the configured
    /// override). A read in any other state is a protocol violation.
    pub open spec fn spec_read(self) -> (R64DriveTest, Result<u32, (&'static str, u32)>) {
        match self.state {
            State::Idle => (self, Err(("unexpected read in state Idle", 0))),
            State::VersionRequest => (
                R64DriveTest { state: State::VersionMagic, ..self },
                Ok(self.version_word),
            ),
            State::VersionMagic => (
                R64DriveTest { state: State::Finished, ..self },
                Ok(self.magic_word),
            ),
            State::SetSaveType => (self, Err(("unexpected read in state SetSaveType", 0))),
            State::SetCICType => (self, Err(("unexpected read in state SetCICType", 0))),
            State::SetCIExtended => (self, Err(("unexpected read in state SetCIExtended", 0))),
            State::LoadFromPCOffset => (self, Err(("unexpected read in state LoadFromPCOffset", 0))),
            State::LoadFromPCMeta => (self, Err(("unexpected read in state LoadFromPCMeta", 0))),
            State::LoadFromPCData => (self, Err(("unexpected read in state LoadFromPCData", 0))),
            State::DumpToPCOffset => (self, Err(("unexpected read in state DumpToPCOffset", 0))),
            State::DumpToPCMeta => (self, Err(("unexpected read in state DumpToPCMeta", 0))),
            State::DumpToPCData => {
                if self.data_len <= 1 {
                    (R64DriveTest { state: State::Finished, data_len: 0, ..self }, Ok(0))
                } else {
                    (R64DriveTest { data_len: (self.data_len - 1) as u32, ..self }, Ok(0))
                }
            },
            State::Finished => {
                match self.finished_word {
                    Some(w) => (self, Ok(w)),
                    None => (self, Ok(self.command.spec_opcode() | consts::COMPARE)),
                }
            },
        }
    }

    /// Consumes one word written by the host, as `spec_write` says.
    pub fn recv_u32(&mut self, val: u32) -> (r: Result<usize, (&'static str, u32)>)
        ensures
            *final(self) == old(self).spec_write(val).0,
            r == old(self).spec_write(val).1,
    {
        match self.state {
            State::Idle => {
                let cmd = Command::from_u32(val >> 24);
                match cmd {
                    Command::Unexpected => Err(("unexpected command in state Idle", val)),
                    Command::VersionRequest => {
                        self.state = State::VersionRequest;
                        self.command = cmd;
                        Ok(4)
                    },
                    Command::SetSaveType => {
                        self.state = State::SetSaveType;
                        self.command = cmd;
                        Ok(4)
                    },
                    Command::SetCICType => {
                        self.state = State::SetCICType;
                        self.command = cmd;
                        Ok(4)
                    },
                    Command::SetCIExtended => {
                        self.state = State::SetCIExtended;
                        self.command = cmd;
                        Ok(4)
                    },
                    Command::LoadFromPC => {
                        self.state = State::LoadFromPCOffset;
                        self.command = cmd;
                        Ok(4)
                    },
                    Command::DumpToPC => {
                        self.state = State::DumpToPCOffset;
                        self.command = cmd;
                        Ok(4)
                    },
                }
            },
            State::SetSaveType => {
                self.state = State::Finished;
                Ok(4)
            },
            State::SetCICType => {
                self.state = State::Finished;
                Ok(4)
            },
            State::SetCIExtended => {
                self.state = State::Finished;
                Ok(4)
            },
            State::LoadFromPCOffset => {
                self.state = State::LoadFromPCMeta;
                Ok(4)
            },
            State::LoadFromPCMeta => {
                let words = (val & 0x00FF_FFFF) / 4;
                if words == 0 {
                    self.state = State::Finished;
                    self.data_len = 0;
                } else {
                    self.state = State::LoadFromPCData;
                    self.data_len = words;
                }
                Ok(4)
            },
            State::LoadFromPCData => {
                if self.data_len <= 1 {
                    self.state = State::Finished;
                    self.data_len = 0;
                } else {
                    self.data_len = self.data_len - 1;
                }
                Ok(4)
            },
            State::DumpToPCOffset => {
                self.state = State::DumpToPCMeta;
                Ok(4)
            },
            State::DumpToPCMeta => {
                let words = (val & 0x00FF_FFFF) / 4;
                if words == 0 {
                    self.state = State::Finished;
                    self.data_len = 0;
                } else {
                    self.state = State::DumpToPCData;
                    self.data_len = words;
                }
                Ok(4)
            },
            State::DumpToPCData => Err(("invalid packet in state DumpToPCData", val)),
            State::VersionRequest => Err(("invalid packet in state VersionRequest", val)),
            State::VersionMagic => Err(("invalid packet in state VersionMagic", val)),
            State::Finished => Err(("invalid packet in state Finished", val)),
        }
    }

    /// Produces one word read by the host, as `spec_read` says.
    pub fn send_u32(&mut self) -> (r: Result<u32, (&'static str, u32)>)
        ensures
            *final(self) == old(self).spec_read().0,
            r == old(self).spec_read().1,
    {
        match self.state {
            State::Idle => Err(("unexpected read in state Idle", 0)),
            State::VersionRequest => {
                self.state = State::VersionMagic;
                Ok(self.version_word)
            },
            State::VersionMagic => {
                self.state = State::Finished;
                Ok(self.magic_word)
            },
            State::SetSaveType => Err(("unexpected read in state SetSaveType", 0)),
            State::SetCICType => Err(("unexpected read in state SetCICType", 0)),
            State::SetCIExtended => Err(("unexpected read in state SetCIExtended", 0)),
            State::LoadFromPCOffset => Err(("unexpected read in state LoadFromPCOffset", 0)),
            State::LoadFromPCMeta => Err(("unexpected read in state LoadFromPCMeta", 0)),
            State::LoadFromPCData => Err(("unexpected read in state LoadFromPCData", 0)),
            State::DumpToPCOffset => Err(("unexpected read in state DumpToPCOffset", 0)),
            State::DumpToPCMeta => Err(("unexpected read in state DumpToPCMeta", 0)),
            State::DumpToPCData => {
                if self.data_len <= 1 {
                    self.state = State::Finished;
                    self.data_len = 0;
                } else {
                    self.data_len = self.data_len - 1;
                }
                Ok(0)
            },
            State::Finished => {
                match self.finished_word {
                    Some(w) => Ok(w),
                    None => Ok(self.command.opcode() | consts::COMPARE),
                }
            },
        }
    }
}

impl Default for R64DriveTest {
    fn default() -> (r: R64DriveTest)
        ensures
            r == R64DriveTest::spec_initial(),
    {
        R64DriveTest {
            state: State::Idle,
            command: Command::Unexpected,
            data_len: 0,
            version_word: 0x4200_00CD,
            magic_word: consts::MAGIC,
            finished_word: None,
        }
    }
}

/// The mock conformance harness: the mock device behind the transport trait,
/// with ghost transcripts of the words exchanged, so that it stands in for a
/// hardware transport wherever the engine asks for one.
pub struct R64DriverTest {
    /// The mock device served over the transport.
    pub mock: R64DriveTest,
    /// The words the host has sent so far.
    pub host_sent: Ghost<Seq<u32>>,
    /// The words the host has received so far.
    pub host_received: Ghost<Seq<u32>>,
}

impl R64DriverTest {
    /// A harness around a fresh, protocol-conformant mock device.
    pub fn new() -> (r: R64DriverTest)
        ensures
            r.mock == R64DriveTest::spec_initial(),
            r.sent() == Seq::<u32>::empty(),
            r.received() == Seq::<u32>::empty(),
    {
        R64DriverTest {
            mock: R64DriveTest {
                state: State::Idle,
                command: Command::Unexpected,
                data_len: 0,
                version_word: 0x4200_00CD,
                magic_word: consts::MAGIC,
                finished_word: None,
            },
            host_sent: Ghost(Seq::empty()),
            host_received: Ghost(Seq::empty()),
        }
    }

    /// A harness whose mock device answers a version request with the two
    /// given words, to present a device of another identity, or one whose
    /// magic word is wrong.
    pub fn with_version_response(version_word: u32, magic_word: u32) -> (r: R64DriverTest)
        ensures
            r.mock == (R64DriveTest {
                version_word,
                magic_word,
                ..R64DriveTest::spec_initial()
            }),
            r.sent() == Seq::<u32>::empty(),
            r.received() == Seq::<u32>::empty(),
    {
        R64DriverTest {
            mock: R64DriveTest {
                state: State::Idle,
                command: Command::Unexpected,
                data_len: 0,
                version_word,
                magic_word,
                finished_word: None,
            },
            host_sent: Ghost(Seq::empty()),
            host_received: Ghost(Seq::empty()),
        }
    }

    /// A harness whose mock device answers every read in `Finished` with the
    /// given word instead of the completion word, to present a device whose
    /// completion echo is wrong.
    pub fn with_finished_word(w: u32) -> (r: R64DriverTest)
        ensures
            r.mock == (R64DriveTest { finished_word: Some(w), ..R64DriveTest::spec_initial() }),
            r.sent() == Seq::<u32>::empty(),
            r.received() == Seq::<u32>::empty(),
    {
        R64DriverTest {
            mock: R64DriveTest {
                state: State::Idle,
                command: Command::Unexpected,
                data_len: 0,
                version_word: 0x4200_00CD,
                magic_word: consts::MAGIC,
                finished_word: Some(w),
            },
            host_sent: Ghost(Seq::empty()),
            host_received: Ghost(Seq::empty()),
        }
    }
}

impl Default for R64DriverTest {
    fn default() -> (r: R64DriverTest)
        ensures
            r.mock == R64DriveTest::spec_initial(),
            r.sent() == Seq::<u32>::empty(),
            r.received() == Seq::<u32>::empty(),
    {
        R64DriverTest::new()
    }
}

impl R64Driver for R64DriverTest {
    type Error = (&'static str, u32);

    open spec fn sent(&self) -> Seq<u32> {
        self.host_sent@
    }

    open spec fn received(&self) -> Seq<u32> {
        self.host_received@
    }

    fn send_u32(&mut self, val: u32) -> (r: Result<usize, Self::Error>)
        ensures
            final(self).mock == old(self).mock.spec_write(val).0,
            r == old(self).mock.spec_write(val).1,
    {
        let r = self.mock.recv_u32(val);
        match r {
            Ok(n) => {
                self.host_sent = Ghost(self.host_sent@.push(val));
                Ok(n)
            },
            Err(e) => Err(e),
        }
    }

    fn recv_u32(&mut self) -> (r: Result<u32, Self::Error>)
        ensures
            final(self).mock == old(self).mock.spec_read().0,
            r == old(self).mock.spec_read().1,
    {
        let r = self.mock.send_u32();
        match r {
            Ok(w) => {
                self.host_received = Ghost(self.host_received@.push(w));
                Ok(w)
            },
            Err(e) => Err(e),
        }
    }
}

} // verus!
