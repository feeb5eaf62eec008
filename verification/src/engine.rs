use crate::consts;
use crate::driver::R64Driver;
use crate::proto::{cmd_header, completion_for, completion_word, encode_meta, header_for,
    lemma_prefix_append_left, lemma_prefix_extend, lemma_prefix_refl, lemma_prefix_transitive,
    req_words, spec_meta_word};
use crate::types::{BankIndex, CICType, Command, FirmwareVersion, HardwareVariant, R64DriveError,
    SaveType};
use vstd::prelude::*;

verus! {

/// The command protocol engine, bound to one transport. It keeps no state
/// between calls: each operation is one fresh, fully blocking exchange of a
/// framed request against the expected response.
pub struct R64Drive<T: R64Driver> {
    driver: T,
}

impl<T: R64Driver> R64Drive<T> {
    /// The transport this engine drives.
    pub closed spec fn spec_driver(&self) -> T {
        self.driver
    }

    /// The words this engine has sent to the device so far.
    pub open spec fn sent(&self) -> Seq<u32> {
        self.spec_driver().sent()
    }

    /// The words this engine has received from the device so far.
    pub open spec fn received(&self) -> Seq<u32> {
        self.spec_driver().received()
    }

    pub fn new(driver: T) -> (r: R64Drive<T>)
        ensures
            r.spec_driver() == driver,
    {
        R64Drive { driver }
    }

    /// Borrows the transport, to inspect it between exchanges.
    pub fn driver(&self) -> (r: &T)
        ensures
            *r == self.spec_driver(),
    {
        &self.driver
    }

    /// One whole exchange: sends the header of `cmd_id` and then each word of
    /// `args`, receives exactly `expected_len` response words, and, if
    /// `verify`, one completion echo more, which must equal the completion
    /// word of `cmd_id`.
    ///
    /// Whatever happens, the words sent are a prefix of the framed request,
    /// appended to what was sent before; a transport failure aborts at once.
    fn send_cmd(&mut self, cmd_id: Command, args: &[u32], expected_len: usize, verify: bool) -> (r:
        Result<Vec<u32>, R64DriveError<T::Error>>)
        requires
            4 * args@.len() <= usize::MAX,
        ensures
            old(self).sent().is_prefix_of(final(self).sent()),
            final(self).sent().is_prefix_of(old(self).sent() + req_words(cmd_id, args@)),
            old(self).received().is_prefix_of(final(self).received()),
            final(self).received().len() <= old(self).received().len() + expected_len + (if verify {
                1int
            } else {
                0int
            }),
            r matches Ok(resp) ==> {
                &&& final(self).sent() == old(self).sent() + req_words(cmd_id, args@)
                &&& resp@.len() == expected_len
                &&& final(self).received() == old(self).received() + resp@ + (if verify {
                    seq![completion_word(cmd_id)]
                } else {
                    Seq::<u32>::empty()
                })
            },
            r matches Err(e) ==> (e is InvalidCompletion || e is NativeError),
            r matches Err(R64DriveError::InvalidCompletion(w)) ==> {
                &&& verify
                &&& w != completion_word(cmd_id)
                &&& final(self).sent() == old(self).sent() + req_words(cmd_id, args@)
                &&& final(self).received().len() == old(self).received().len() + expected_len + 1
                &&& final(self).received().last() == w
            },
    {
        let ghost pre_sent = self.sent();
        let ghost pre_recvd = self.received();
        let ghost req = req_words(cmd_id, args@);
        let cmd_hdr = header_for(cmd_id);
        proof {
            assert(seq![cmd_header(cmd_id)].is_prefix_of(req)) by {
                assert(seq![cmd_header(cmd_id)] =~= req.subrange(0, 1));
            }
        }
        match self.driver.send_u32(cmd_hdr) {
            Ok(_) => {},
            Err(e) => {
                proof {
                    lemma_prefix_refl(pre_sent);
                    lemma_prefix_refl(pre_recvd);
                    lemma_prefix_extend(pre_sent, req);
                    assert(pre_sent.push(cmd_hdr) =~= pre_sent + seq![cmd_header(cmd_id)]);
                    lemma_prefix_append_left(pre_sent, seq![cmd_header(cmd_id)], req);
                }
                return Err(R64DriveError::NativeError(e));
            },
        }
        proof {
            assert(self.sent() =~= pre_sent + seq![cmd_header(cmd_id)]);
            lemma_prefix_extend(pre_sent, seq![cmd_header(cmd_id)]);
        }
        match self.driver.send_u32_slice(args) {
            Ok(_) => {},
            Err(e) => {
                proof {
                    lemma_prefix_refl(pre_recvd);
                    lemma_prefix_transitive(
                        pre_sent,
                        pre_sent + seq![cmd_header(cmd_id)],
                        self.sent(),
                    );
                    assert((pre_sent + seq![cmd_header(cmd_id)]) + args@ =~= pre_sent + req);
                }
                return Err(R64DriveError::NativeError(e));
            },
        }
        proof {
            assert(self.sent() =~= pre_sent + req);
            lemma_prefix_refl(self.sent());
            lemma_prefix_extend(pre_sent, req);
        }
        let response = match self.driver.recv_u32_slice(expected_len) {
            Ok(v) => v,
            Err(e) => {
                return Err(R64DriveError::NativeError(e));
            },
        };
        if verify {
            let completion_pkt = completion_for(cmd_id);
            let resp_u32 = match self.driver.recv_u32() {
                Ok(w) => w,
                Err(e) => {
                    proof {
                        lemma_prefix_extend(pre_recvd, response@);
                    }
                    return Err(R64DriveError::NativeError(e));
                },
            };
            proof {
                assert(self.received() =~= pre_recvd + response@ + seq![resp_u32]);
                lemma_prefix_extend(pre_recvd, response@ + seq![resp_u32]);
                assert(pre_recvd + (response@ + seq![resp_u32]) =~= pre_recvd + response@ + seq![
                    resp_u32,
                ]);
                assert(self.received().last() == resp_u32);
            }
            if resp_u32 != completion_pkt {
                return Err(R64DriveError::InvalidCompletion(resp_u32));
            }
        } else {
            proof {
                lemma_prefix_extend(pre_recvd, response@);
                assert(self.received() + Seq::<u32>::empty() =~= self.received());
            }
        }
        Ok(response)
    }

    /// Queries device identity. Sends a version request and expects two
    /// response words: the second must equal the device magic (else the call
    /// fails with `InvalidMagic` carrying that word); the first decodes to the
    /// hardware variant (high 16 bits, unknown codes map to `Unexpected`) and
    /// the firmware version (low 16 bits).
    pub fn get_version(&mut self) -> (r: Result<
        (HardwareVariant, FirmwareVersion),
        R64DriveError<T::Error>,
    >)
        ensures
            old(self).sent().is_prefix_of(final(self).sent()),
            final(self).sent().is_prefix_of(
                old(self).sent() + req_words(Command::VersionRequest, Seq::<u32>::empty()),
            ),
            old(self).received().is_prefix_of(final(self).received()),
            r matches Ok(p) ==> {
                let w0 = final(self).received()[old(self).received().len() as int];
                &&& final(self).sent() == old(self).sent() + req_words(
                    Command::VersionRequest,
                    Seq::<u32>::empty(),
                )
                &&& final(self).received() == old(self).received() + seq![
                    w0,
                    consts::MAGIC,
                    completion_word(Command::VersionRequest),
                ]
                &&& p.0 == HardwareVariant::spec_from_u32(w0 >> 16)
                &&& p.1.spec_inner() == (w0 % 0x10000) as u16
            },
            r matches Err(R64DriveError::InvalidMagic(w)) ==> {
                let n = old(self).received().len() as int;
                &&& final(self).received().len() == n + 3
                &&& w == final(self).received()[n + 1]
                &&& w != consts::MAGIC
                &&& final(self).received().last() == completion_word(Command::VersionRequest)
            },
            r matches Err(R64DriveError::InvalidCompletion(w)) ==> w != completion_word(
                Command::VersionRequest,
            ) && final(self).received().last() == w,
            r matches Err(e) ==> !(e is TransferTooLarge),
    {
        let args: Vec<u32> = Vec::new();
        let response = match self.send_cmd(Command::VersionRequest, args.as_slice(), 2, true) {
            Ok(v) => v,
            Err(e) => {
                return Err(e);
            },
        };
        proof {
            assert(self.received() =~= old(self).received() + seq![
                response@[0],
                response@[1],
                completion_word(Command::VersionRequest),
            ]);
        }
        if response[1] != consts::MAGIC {
            return Err(R64DriveError::InvalidMagic(response[1]));
        }
        let variant = HardwareVariant::from_u32(response[0] >> 16);
        let fw = FirmwareVersion::new((response[0] % 0x10000) as u16);
        Ok((variant, fw))
    }

    /// Configures the save-memory kind: one argument word, a required
    /// completion echo, no response words.
    pub fn set_save_type(&mut self, save_type: SaveType) -> (r: Result<
        (),
        R64DriveError<T::Error>,
    >)
        ensures
            old(self).sent().is_prefix_of(final(self).sent()),
            final(self).sent().is_prefix_of(
                old(self).sent() + req_words(Command::SetSaveType, seq![save_type.spec_code()]),
            ),
            old(self).received().is_prefix_of(final(self).received()),
            r is Ok ==> {
                &&& final(self).sent() == old(self).sent() + req_words(
                    Command::SetSaveType,
                    seq![save_type.spec_code()],
                )
                &&& final(self).received() == old(self).received().push(
                    completion_word(Command::SetSaveType),
                )
            },
            r matches Err(R64DriveError::InvalidCompletion(w)) ==> w != completion_word(
                Command::SetSaveType,
            ) && final(self).received().last() == w && final(self).received().len() == old(
                self,
            ).received().len() + 1,
            r matches Err(e) ==> (e is InvalidCompletion || e is NativeError),
    {
        let mut args: Vec<u32> = Vec::new();
        args.push(save_type.code());
        match self.send_cmd(Command::SetSaveType, args.as_slice(), 0, true) {
            Ok(v) => {
                proof {
                    assert(old(self).received() + v@ =~= old(self).received());
                    assert(self.received() =~= old(self).received().push(
                        completion_word(Command::SetSaveType),
                    ));
                }
                Ok(())
            },
            Err(e) => Err(e),
        }
    }

    /// Configures the boot-ROM emulation kind. The argument word carries the
    /// CIC code OR'd with the override bit: the device otherwise infers the
    /// CIC type from the inserted cartridge.
    pub fn set_cic_type(&mut self, cic_type: CICType) -> (r: Result<(), R64DriveError<T::Error>>)
        ensures
            old(self).sent().is_prefix_of(final(self).sent()),
            final(self).sent().is_prefix_of(
                old(self).sent() + req_words(
                    Command::SetCICType,
                    seq![cic_type.spec_code() | consts::OVERRIDE_CIC],
                ),
            ),
            old(self).received().is_prefix_of(final(self).received()),
            r is Ok ==> {
                &&& final(self).sent() == old(self).sent() + req_words(
                    Command::SetCICType,
                    seq![cic_type.spec_code() | consts::OVERRIDE_CIC],
                )
                &&& final(self).received() == old(self).received().push(
                    completion_word(Command::SetCICType),
                )
            },
            r matches Err(R64DriveError::InvalidCompletion(w)) ==> w != completion_word(
                Command::SetCICType,
            ) && final(self).received().last() == w && final(self).received().len() == old(
                self,
            ).received().len() + 1,
            r matches Err(e) ==> (e is InvalidCompletion || e is NativeError),
    {
        let mut args: Vec<u32> = Vec::new();
        args.push(cic_type.code() | consts::OVERRIDE_CIC);
        match self.send_cmd(Command::SetCICType, args.as_slice(), 0, true) {
            Ok(v) => {
                proof {
                    assert(old(self).received() + v@ =~= old(self).received());
                    assert(self.received() =~= old(self).received().push(
                        completion_word(Command::SetCICType),
                    ));
                }
                Ok(())
            },
            Err(e) => Err(e),
        }
    }

    /// Switches the extended-interface flag: one argument word holding 1 or 0,
    /// a required completion echo, no response words.
    pub fn set_ci_extended(&mut self, enable: bool) -> (r: Result<(), R64DriveError<T::Error>>)
        ensures
            old(self).sent().is_prefix_of(final(self).sent()),
            final(self).sent().is_prefix_of(
                old(self).sent() + req_words(
                    Command::SetCIExtended,
                    seq![if enable { 1u32 } else { 0u32 }],
                ),
            ),
            old(self).received().is_prefix_of(final(self).received()),
            r is Ok ==> {
                &&& final(self).sent() == old(self).sent() + req_words(
                    Command::SetCIExtended,
                    seq![if enable { 1u32 } else { 0u32 }],
                )
                &&& final(self).received() == old(self).received().push(
                    completion_word(Command::SetCIExtended),
                )
            },
            r matches Err(R64DriveError::InvalidCompletion(w)) ==> w != completion_word(
                Command::SetCIExtended,
            ) && final(self).received().last() == w && final(self).received().len() == old(
                self,
            ).received().len() + 1,
            r matches Err(e) ==> (e is InvalidCompletion || e is NativeError),
    {
        let mut args: Vec<u32> = Vec::new();
        args.push(if enable { 1 } else { 0 });
        match self.send_cmd(Command::SetCIExtended, args.as_slice(), 0, true) {
            Ok(v) => {
                proof {
                    assert(old(self).received() + v@ =~= old(self).received());
                    assert(self.received() =~= old(self).received().push(
                        completion_word(Command::SetCIExtended),
                    ));
                }
                Ok(())
            },
            Err(e) => Err(e),
        }
    }

    /// Streams `data` into a memory bank of the device: sends the offset word,
    /// the metadata word (bank in the top byte, byte length below), then each
    /// data word in order. No response words and no completion echo are
    /// expected: the device consumes the stream asynchronously.
    ///
    /// A payload of more than `MAX_TRANSFER_SIZE` words is rejected before any
    /// word is sent; splitting such a payload is the caller's responsibility.
    pub fn load_from_pc(&mut self, offset: u32, bank: BankIndex, data: &[u32]) -> (r: Result<
        (),
        R64DriveError<T::Error>,
    >)
        ensures
            old(self).sent().is_prefix_of(final(self).sent()),
            old(self).received().is_prefix_of(final(self).received()),
            final(self).received() == old(self).received(),
            data@.len() > consts::MAX_TRANSFER_SIZE ==> (r matches Err(
                R64DriveError::TransferTooLarge,
            )) && *final(self) == *old(self),
            data@.len() <= consts::MAX_TRANSFER_SIZE ==> {
                let args = seq![
                    offset,
                    spec_meta_word(bank.spec_code(), (4 * data@.len()) as u32),
                ] + data@;
                &&& final(self).sent().is_prefix_of(
                    old(self).sent() + req_words(Command::LoadFromPC, args),
                )
                &&& (r is Ok ==> final(self).sent() == old(self).sent() + req_words(
                    Command::LoadFromPC,
                    args,
                ))
                &&& (r matches Err(e) ==> e is NativeError)
            },
    {
        if data.len() > consts::MAX_TRANSFER_SIZE {
            proof {
                lemma_prefix_refl(self.sent());
                lemma_prefix_refl(self.received());
            }
            return Err(R64DriveError::TransferTooLarge);
        }
        let byte_len = (data.len() as u32) * 4;
        let meta = encode_meta(bank, byte_len);
        let mut args: Vec<u32> = Vec::new();
        args.push(offset);
        args.push(meta);
        let mut i: usize = 0;
        while i < data.len()
            invariant
                i <= data@.len(),
                args@ == seq![offset, meta] + data@.take(i as int),
            decreases data@.len() - i,
        {
            args.push(data[i]);
            proof {
                assert(args@ =~= seq![offset, meta] + data@.take(i + 1));
            }
            i = i + 1;
        }
        proof {
            assert(args@ =~= seq![offset, meta] + data@);
        }
        let r = self.send_cmd(Command::LoadFromPC, args.as_slice(), 0, false);
        proof {
            assert(self.received() =~= old(self).received());
        }
        match r {
            Ok(_) => Ok(()),
            Err(e) => Err(e),
        }
    }

    /// Reads `len` bytes out of a memory bank of the device: sends the offset
    /// word and the metadata word, then receives exactly `len / 4` words, each
    /// as the device echoed it. No completion echo is expected.
    ///
    /// A length of more than `MAX_TRANSFER_SIZE` bytes is rejected before any
    /// word is sent.
    pub fn dump_to_pc(&mut self, offset: u32, bank: BankIndex, len: u32) -> (r: Result<
        Vec<u32>,
        R64DriveError<T::Error>,
    >)
        ensures
            old(self).sent().is_prefix_of(final(self).sent()),
            old(self).received().is_prefix_of(final(self).received()),
            len > consts::MAX_TRANSFER_SIZE ==> (r matches Err(R64DriveError::TransferTooLarge))
                && *final(self) == *old(self),
            len <= consts::MAX_TRANSFER_SIZE ==> {
                let args = seq![offset, spec_meta_word(bank.spec_code(), len)];
                &&& final(self).sent().is_prefix_of(
                    old(self).sent() + req_words(Command::DumpToPC, args),
                )
                &&& (r matches Ok(v) ==> {
                    &&& v@.len() == len as nat / 4
                    &&& final(self).sent() == old(self).sent() + req_words(Command::DumpToPC, args)
                    &&& final(self).received() == old(self).received() + v@
                })
                &&& (r matches Err(e) ==> e is NativeError)
            },
    {
        if len > consts::MAX_TRANSFER_SIZE as u32 {
            proof {
                lemma_prefix_refl(self.sent());
                lemma_prefix_refl(self.received());
            }
            return Err(R64DriveError::TransferTooLarge);
        }
        let meta = encode_meta(bank, len);
        let mut args: Vec<u32> = Vec::new();
        args.push(offset);
        args.push(meta);
        let expected = (len / 4) as usize;
        let r = self.send_cmd(Command::DumpToPC, args.as_slice(), expected, false);
        match r {
            Ok(v) => {
                proof {
                    assert(self.received() =~= old(self).received() + v@);
                }
                Ok(v)
            },
            Err(e) => Err(e),
        }
    }
}

} // verus!
