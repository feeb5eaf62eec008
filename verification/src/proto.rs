use crate::consts;
use crate::types::{BankIndex, Command};
use vstd::prelude::*;

verus! {

/// The header word that opens the request of `cmd`: the opcode in the top
/// byte, the command magic in the low 24 bits.
pub open spec fn cmd_header(cmd: Command) -> u32 {
    (cmd.spec_opcode() << 24) | consts::COMMAND
}

/// The completion echo the device owes once `cmd` has finished: the opcode
/// OR'd into the compare magic.
pub open spec fn completion_word(cmd: Command) -> u32 {
    cmd.spec_opcode() | consts::COMPARE
}

/// The whole framed request of `cmd` with argument words `args`: the header
/// first, then each argument in order.
pub open spec fn req_words(cmd: Command, args: Seq<u32>) -> Seq<u32> {
    seq![cmd_header(cmd)] + args
}

/// The metadata word of a transfer command: the bank number in bits 24-31,
/// the byte length in bits 0-23.
pub open spec fn spec_meta_word(bank: u32, byte_len: u32) -> u32 {
    (bank << 24) | byte_len
}

/// The bank number held in bits 24-31 of a metadata word.
pub open spec fn spec_meta_bank(w: u32) -> u32 {
    w >> 24
}

/// The byte length held in bits 0-23 of a metadata word.
pub open spec fn spec_meta_byte_len(w: u32) -> u32 {
    w & 0x00FF_FFFF
}

/// The header word of `cmd`, as it is framed on the wire.
pub fn header_for(cmd: Command) -> (w: u32)
    ensures
        w == cmd_header(cmd),
{
    (cmd.opcode() << 24) | consts::COMMAND
}

/// The completion echo owed for `cmd`.
pub fn completion_for(cmd: Command) -> (w: u32)
    ensures
        w == completion_word(cmd),
{
    cmd.opcode() | consts::COMPARE
}

/// The metadata word that co-encodes `bank` and `byte_len`.
pub fn encode_meta(bank: BankIndex, byte_len: u32) -> (w: u32)
    requires
        byte_len < 0x0100_0000,
    ensures
        w == spec_meta_word(bank.spec_code(), byte_len),
{
    (bank.code() << 24) | byte_len
}

/// The bank number and byte length held in a metadata word.
pub fn decode_meta(w: u32) -> (r: (u32, u32))
    ensures
        r.0 == spec_meta_bank(w),
        r.1 == spec_meta_byte_len(w),
{
    (w >> 24, w & 0x00FF_FFFF)
}

/// Every sequence is a prefix of itself.
pub proof fn lemma_prefix_refl(s: Seq<u32>)
    ensures
        s.is_prefix_of(s),
{
    assert(s =~= s.subrange(0, s.len() as int));
}

/// A sequence is a prefix of itself extended by anything.
pub proof fn lemma_prefix_extend(s: Seq<u32>, t: Seq<u32>)
    ensures
        s.is_prefix_of(s + t),
{
    assert(s =~= (s + t).subrange(0, s.len() as int));
}

/// Extending two sequences by the same front keeps the prefix relation.
pub proof fn lemma_prefix_append_left(s: Seq<u32>, t: Seq<u32>, u: Seq<u32>)
    requires
        t.is_prefix_of(u),
    ensures
        (s + t).is_prefix_of(s + u),
{
    assert((s + t) =~= (s + u).subrange(0, s.len() as int + t.len() as int));
}

/// The prefix relation is transitive.
pub proof fn lemma_prefix_transitive(a: Seq<u32>, b: Seq<u32>, c: Seq<u32>)
    requires
        a.is_prefix_of(b),
        b.is_prefix_of(c),
    ensures
        a.is_prefix_of(c),
{
    assert(a =~= c.subrange(0, a.len() as int));
}

/// Law: the first word of every framed request is the command header,
/// `(opcode << 24) | COMMAND`, whatever the argument words are.
pub proof fn lemma_first_word_is_header(cmd: Command, args: Seq<u32>)
    ensures
        req_words(cmd, args).len() == 1 + args.len(),
        req_words(cmd, args)[0] == (cmd.spec_opcode() << 24) | consts::COMMAND,
        forall|i: int| 0 <= i < args.len() ==> req_words(cmd, args)[1 + i] == args[i],
{
}

/// Law: encoding a bank number and a byte length into one metadata word and
/// decoding it again recovers both, for every bank that fits the top byte and
/// every byte length that fits the low 24 bits (so for all valid banks 0-6).
pub proof fn lemma_meta_round_trip(bank: u32, byte_len: u32)
    requires
        bank < 0x100,
        byte_len < 0x0100_0000,
    ensures
        spec_meta_bank(spec_meta_word(bank, byte_len)) == bank,
        spec_meta_byte_len(spec_meta_word(bank, byte_len)) == byte_len,
{
    assert(((bank << 24) | byte_len) >> 24 == bank && ((bank << 24) | byte_len) & 0x00FF_FFFF
        == byte_len) by (bit_vector)
        requires
            bank < 0x100,
            byte_len < 0x0100_0000,
    ;
}

} // verus!
