use crate::proto::{lemma_prefix_append_left, lemma_prefix_extend};
use vstd::prelude::*;

verus! {

/// A transport bound to the device: a blocking exchange of 32-bit big-endian
/// words. The protocol engine works against this trait; the mock conformance
/// harness implements it in-process, and a hardware transport may implement it
/// outside the library.
///
/// `sent` and `received` are the transcripts of the exchange so far: every
/// contract of the engine speaks of the words a call appended to them.
pub trait R64Driver: Sized {
    type Error;

    /// The words sent to the device so far.
    spec fn sent(&self) -> Seq<u32>;

    /// The words received from the device so far.
    spec fn received(&self) -> Seq<u32>;

    /// Sends one word; on success it reports how many bytes went out, at most
    /// the four bytes of the word. On failure the word may or may not have
    /// reached the device.
    fn send_u32(&mut self, val: u32) -> (r: Result<usize, Self::Error>)
        ensures
            final(self).received() == old(self).received(),
            r matches Ok(n) ==> final(self).sent() == old(self).sent().push(val) && n <= 4,
            r is Err ==> final(self).sent() == old(self).sent() || final(self).sent() == old(
                self,
            ).sent().push(val),
    ;

    /// Receives one word; on failure nothing was consumed.
    fn recv_u32(&mut self) -> (r: Result<u32, Self::Error>)
        ensures
            final(self).sent() == old(self).sent(),
            r matches Ok(w) ==> final(self).received() == old(self).received().push(w),
            r is Err ==> final(self).received() == old(self).received(),
    ;

    /// Sends the words of `slice` in order, stopping at the first failure;
    /// whatever went out is a prefix of `slice`.
    fn send_u32_slice(&mut self, slice: &[u32]) -> (r: Result<usize, Self::Error>)
        requires
            4 * slice@.len() <= usize::MAX,
        ensures
            final(self).received() == old(self).received(),
            old(self).sent().is_prefix_of(final(self).sent()),
            final(self).sent().is_prefix_of(old(self).sent() + slice@),
            r is Ok ==> final(self).sent() == old(self).sent() + slice@,
            r matches Ok(n) ==> n <= 4 * slice@.len(),
    {
        let mut result: usize = 0;
        let mut i: usize = 0;
        proof {
            assert(self.sent() =~= old(self).sent() + slice@.take(0));
        }
        while i < slice.len()
            invariant
                i <= slice@.len(),
                4 * slice@.len() <= usize::MAX,
                result <= 4 * i,
                self.received() == old(self).received(),
                self.sent() == old(self).sent() + slice@.take(i as int),
            decreases slice@.len() - i,
        {
            let ghost pre = self.sent();
            match self.send_u32(slice[i]) {
                Ok(n) => {
                    result = result + n;
                },
                Err(e) => {
                    proof {
                        lemma_prefix_extend(old(self).sent(), slice@.take(i as int));
                        lemma_prefix_extend(old(self).sent() + slice@.take(i as int), seq![
                            slice@[i as int],
                        ]);
                        if self.sent() == pre.push(slice@[i as int]) {
                            assert(self.sent() =~= (old(self).sent() + slice@.take(i as int))
                                + seq![slice@[i as int]]);
                        } else {
                            assert(self.sent() =~= (old(self).sent() + slice@.take(i as int))
                                + Seq::<u32>::empty());
                        }
                        assert(slice@.take(i as int).is_prefix_of(slice@)) by {
                            assert(slice@.take(i as int) =~= slice@.subrange(0, i as int));
                        }
                        assert((slice@.take(i as int) + seq![slice@[i as int]]).is_prefix_of(
                            slice@,
                        )) by {
                            assert(slice@.take(i as int) + seq![slice@[i as int]] =~= slice@
                                .subrange(0, i + 1));
                        }
                        lemma_prefix_append_left(
                            old(self).sent(),
                            slice@.take(i as int),
                            slice@,
                        );
                        lemma_prefix_append_left(
                            old(self).sent(),
                            slice@.take(i as int) + seq![slice@[i as int]],
                            slice@,
                        );
                    }
                    return Err(e);
                },
            }
            proof {
                assert(self.sent() =~= old(self).sent() + slice@.take(i + 1));
            }
            i = i + 1;
        }
        proof {
            assert(slice@.take(slice@.len() as int) =~= slice@);
            lemma_prefix_extend(self.sent(), Seq::<u32>::empty());
            assert(self.sent() + Seq::<u32>::empty() =~= self.sent());
        }
        Ok(result)
    }

    /// Receives exactly `len` words, in order, stopping at the first failure.
    fn recv_u32_slice(&mut self, len: usize) -> (r: Result<Vec<u32>, Self::Error>)
        ensures
            final(self).sent() == old(self).sent(),
            old(self).received().is_prefix_of(final(self).received()),
            final(self).received().len() <= old(self).received().len() + len,
            r matches Ok(v) ==> v@.len() == len && final(self).received() == old(self).received()
                + v@,
    {
        let mut result: Vec<u32> = Vec::new();
        let mut i: usize = 0;
        proof {
            assert(self.received() =~= old(self).received() + result@);
        }
        while i < len
            invariant
                i <= len,
                result@.len() == i,
                self.sent() == old(self).sent(),
                self.received() == old(self).received() + result@,
            decreases len - i,
        {
            match self.recv_u32() {
                Ok(w) => {
                    result.push(w);
                    proof {
                        assert(self.received() =~= old(self).received() + result@);
                    }
                },
                Err(e) => {
                    proof {
                        lemma_prefix_extend(old(self).received(), result@);
                    }
                    return Err(e);
                },
            }
            i = i + 1;
        }
        proof {
            lemma_prefix_extend(old(self).received(), result@);
        }
        Ok(result)
    }
}

} // verus!
