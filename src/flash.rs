//! The flash sequence: an image cut into chunks, and for each chunk an
//! erase, a set-address and a data block, in that order.
use vstd::prelude::*;
use crate::codec::{
    erase_command, le32, set_address_command, DownloadType, ERASE_COMMAND, MAX_PAYLOAD,
    SET_ADDRESS_COMMAND,
};
use crate::exchange::DownloadError;

verus! {

/// Flash address of the first chunk unless told otherwise.
pub const BASE_ADDRESS: u32 = 0x08004000;

/// Chunk size unless told otherwise.
pub const CHUNK_SIZE: usize = 1024;

/// One chunk of an image: where it starts in the image, its length, and the
/// flash address it goes to.
#[derive(PartialEq, Eq, Structural, Clone, Copy, Debug)]
pub struct Chunk {
    pub offset: usize,
    pub len: usize,
    pub address: u32,
}

/// Number of chunks of `chunk_size` bytes an image of `image_len` bytes is
/// cut into, the last one possibly shorter.
pub open spec fn chunk_count(image_len: nat, chunk_size: nat) -> nat
    recommends
        chunk_size > 0,
{
    ((image_len + chunk_size - 1) / chunk_size as int) as nat
}

/// The `i`-th chunk of an image of `image_len` bytes flashed from `base`.
pub open spec fn chunk_at(image_len: nat, base: u32, chunk_size: nat, i: nat) -> Chunk {
    let offset = i * chunk_size;
    Chunk {
        offset: offset as usize,
        len: (if offset + chunk_size <= image_len {
            chunk_size as int
        } else {
            image_len - offset
        }) as usize,
        address: (base + offset) as u32,
    }
}

/// Whether an image of `image_len` bytes flashed from `base` ends within the
/// 32-bit address space: its last byte, if any, at 0xFFFF_FFFF or below.
pub open spec fn fits_address_space(image_len: nat, base: u32) -> bool {
    base + image_len <= u32::MAX + 1
}

proof fn lemma_chunk_count(n: nat, cs: nat, k: nat)
    requires
        cs > 0,
        k * cs >= n,
        k == 0 || (k - 1) * cs < n,
    ensures
        chunk_count(n, cs) == k,
{
    if k == 0 {
        vstd::arithmetic::div_mod::lemma_fundamental_div_mod_converse(
            n + cs - 1,
            cs as int,
            0,
            cs - 1,
        );
    } else {
        assert(k * cs == (k - 1) * cs + cs) by (nonlinear_arith);
        vstd::arithmetic::div_mod::lemma_fundamental_div_mod_converse(
            n + cs - 1,
            cs as int,
            k as int,
            n + cs - 1 - k * cs,
        );
    }
}

proof fn lemma_chunk_in_image(n: nat, cs: nat, i: nat)
    requires
        cs > 0,
        i < chunk_count(n, cs),
    ensures
        i * cs < n,
{
    let q = chunk_count(n, cs);
    vstd::arithmetic::div_mod::lemma_fundamental_div_mod(n + cs - 1, cs as int);
    assert(i * cs < n) by (nonlinear_arith)
        requires
            cs > 0,
            i < q,
            n + cs - 1 == cs * q + (n + cs - 1) % (cs as int),
            (n + cs - 1) % (cs as int) >= 0,
    ;
}

/// Cuts an image of `image_len` bytes into chunks of `chunk_size` bytes,
/// the last one possibly shorter, with consecutive flash addresses from
/// `base`. `None` when the image would run past the 32-bit address space.
pub fn chunk_plan(image_len: usize, base: u32, chunk_size: usize) -> (r: Option<Vec<Chunk>>)
    requires
        chunk_size > 0,
    ensures
        r is None <==> !fits_address_space(image_len as nat, base),
        r matches Some(plan) ==> plan@.len() == chunk_count(image_len as nat, chunk_size as nat)
            && forall|i: int|
            0 <= i < plan@.len() ==> plan@[i] == chunk_at(
                image_len as nat,
                base,
                chunk_size as nat,
                i as nat,
            ),
{
    if image_len as u64 > (u32::MAX - base) as u64 + 1 {
        return None;
    }
    let ghost n = image_len as nat;
    let ghost cs = chunk_size as nat;
    let mut plan: Vec<Chunk> = Vec::new();
    let mut offset: usize = 0;
    assert(0 * cs == 0);
    while offset < image_len
        invariant
            n == image_len,
            cs == chunk_size > 0,
            fits_address_space(n, base),
            offset <= image_len,
            offset as int == (if plan@.len() * cs <= n {
                (plan@.len() * cs) as int
            } else {
                n as int
            }),
            plan@.len() == 0 || (plan@.len() - 1) * cs < n,
            forall|i: int| 0 <= i < plan@.len() ==> plan@[i] == chunk_at(n, base, cs, i as nat),
        decreases image_len - offset,
    {
        let ghost k = plan@.len();
        let len: usize = if image_len - offset >= chunk_size {
            chunk_size
        } else {
            image_len - offset
        };
        let c = Chunk { offset, len, address: base + offset as u32 };
        assert(c == chunk_at(n, base, cs, k as nat));
        plan.push(c);
        offset = offset + len;
        assert((k + 1) * cs == k * cs + cs) by (nonlinear_arith);
    }
    proof {
        lemma_chunk_count(n, cs, plan@.len() as nat);
    }
    Some(plan)
}

/// What to do when a block of the sequence fails.
#[derive(PartialEq, Eq, Structural, Clone, Copy, Debug)]
pub enum FailurePolicy {
    /// Stop the sequence at the first failed block.
    AbortOnError,
    /// Note the failure and go on with the next block.
    ContinueOnError,
}

/// The block of a chunk that comes next.
#[derive(PartialEq, Eq, Structural, Clone, Copy, Debug)]
pub enum Stage {
    Erase,
    SetAddress,
    Data,
}

/// Type and payload of the block `stage` of `chunk`, within `image`.
pub open spec fn block_of(chunk: Chunk, stage: Stage, image: Seq<u8>) -> (DownloadType, Seq<u8>) {
    match stage {
        Stage::Erase => (DownloadType::Command, seq![ERASE_COMMAND] + le32(chunk.address)),
        Stage::SetAddress => (DownloadType::Command, seq![SET_ADDRESS_COMMAND] + le32(chunk.address)),
        Stage::Data => (
            DownloadType::Data,
            image.subrange(chunk.offset as int, chunk.offset + chunk.len),
        ),
    }
}

/// The position after the block `stage` of chunk `index`.
pub open spec fn next_position(index: usize, stage: Stage) -> (usize, Stage) {
    match stage {
        Stage::Erase => (index, Stage::SetAddress),
        Stage::SetAddress => (index, Stage::Data),
        Stage::Data => ((index + 1) as usize, Stage::Erase),
    }
}

/// A flash sequence in progress.
pub struct FlashSession {
    /// Length of the image being flashed.
    pub image_len: usize,
    /// Flash address of the first chunk.
    pub base: u32,
    /// Length of every chunk but possibly the last.
    pub chunk_size: usize,
    pub policy: FailurePolicy,
    /// The chunks of the image.
    pub plan: Vec<Chunk>,
    /// The chunk in progress.
    pub index: usize,
    /// The next block of that chunk.
    pub stage: Stage,
    /// Whether some block has failed.
    pub failed: bool,
    /// Whether the sequence stopped on a failure.
    pub halted: bool,
}

impl FlashSession {
    /// The chunks and the position agree with the image's length.
    pub open spec fn wf(&self) -> bool {
        &&& 0 < self.chunk_size <= MAX_PAYLOAD
        &&& fits_address_space(self.image_len as nat, self.base)
        &&& self.plan@.len() == chunk_count(self.image_len as nat, self.chunk_size as nat)
        &&& forall|i: int|
            0 <= i < self.plan@.len() ==> self.plan@[i] == chunk_at(
                self.image_len as nat,
                self.base,
                self.chunk_size as nat,
                i as nat,
            )
        &&& self.index <= self.plan@.len()
        &&& self.index == self.plan@.len() ==> self.stage == Stage::Erase
    }

    /// Whether no block is left to send.
    pub open spec fn is_done(&self) -> bool {
        self.halted || self.index == self.plan@.len()
    }

    /// Starts the sequence for an image of `image_len` bytes. `None` when the
    /// image would run past the 32-bit address space.
    pub fn new(image_len: usize, base: u32, chunk_size: usize, policy: FailurePolicy) -> (r:
        Option<FlashSession>)
        requires
            0 < chunk_size <= MAX_PAYLOAD,
        ensures
            r is None <==> !fits_address_space(image_len as nat, base),
            r matches Some(s) ==> s.wf() && s.image_len == image_len && s.base == base
                && s.chunk_size == chunk_size && s.policy == policy && s.index == 0 && s.stage
                == Stage::Erase && !s.failed && !s.halted,
    {
        match chunk_plan(image_len, base, chunk_size) {
            None => None,
            Some(plan) => Some(
                FlashSession {
                    image_len,
                    base,
                    chunk_size,
                    policy,
                    plan,
                    index: 0,
                    stage: Stage::Erase,
                    failed: false,
                    halted: false,
                },
            ),
        }
    }

    /// The next block to send, as its type and payload; `None` once the
    /// sequence is over.
    pub fn next_block(&self, image: &[u8]) -> (r: Option<(DownloadType, Vec<u8>)>)
        requires
            self.wf(),
            image@.len() == self.image_len,
        ensures
            r is None <==> self.is_done(),
            r matches Some(b) ==> (b.0, b.1@) == block_of(
                self.plan@[self.index as int],
                self.stage,
                image@,
            ),
            r matches Some(b) ==> b.1@.len() <= MAX_PAYLOAD,
    {
        if self.halted || self.index >= self.plan.len() {
            return None;
        }
        let chunk = self.plan[self.index];
        proof {
            let c = chunk_at(self.image_len as nat, self.base, self.chunk_size as nat, self.index as nat);
            assert(chunk == c);
            lemma_chunk_in_image(self.image_len as nat, self.chunk_size as nat, self.index as nat);
        }
        match self.stage {
            Stage::Erase => {
                let b = erase_command(chunk.address);
                assert(b@.len() == 5);
                Some((DownloadType::Command, b))
            },
            Stage::SetAddress => {
                let b = set_address_command(chunk.address);
                assert(b@.len() == 5);
                Some((DownloadType::Command, b))
            },
            Stage::Data => {
                let mut data: Vec<u8> = Vec::with_capacity(chunk.len);
                let mut i: usize = chunk.offset;
                let end: usize = chunk.offset + chunk.len;
                while i < end
                    invariant
                        chunk.offset <= i <= end <= image@.len(),
                        end == chunk.offset + chunk.len,
                        data@ == image@.subrange(chunk.offset as int, i as int),
                    decreases end - i,
                {
                    data.push(image[i]);
                    i = i + 1;
                    assert(data@ =~= image@.subrange(chunk.offset as int, i as int));
                }
                Some((DownloadType::Data, data))
            },
        }
    }

    /// Records the outcome of the block last handed out by `next_block` and
    /// moves to the next one. A failure stops the sequence under
    /// `AbortOnError`; under `ContinueOnError` it is noted and the sequence
    /// goes on. Returns whether a chunk's data block has just been passed.
    pub fn record(&mut self, result: Result<(), DownloadError>) -> (chunk_done: bool)
        requires
            old(self).wf(),
        ensures
            final(self).wf(),
            final(self).image_len == old(self).image_len,
            final(self).base == old(self).base,
            final(self).chunk_size == old(self).chunk_size,
            final(self).policy == old(self).policy,
            final(self).plan == old(self).plan,
            old(self).is_done() ==> *final(self) == *old(self) && !chunk_done,
            !old(self).is_done() && result is Err && old(self).policy == FailurePolicy::AbortOnError
                ==> final(self).halted && final(self).failed && final(self).index == old(
                self).index && final(self).stage == old(self).stage && !chunk_done,
            !old(self).is_done() && !(result is Err && old(self).policy
                == FailurePolicy::AbortOnError) ==> !final(self).halted && final(self).failed == (
            old(self).failed || result is Err) && (final(self).index, final(self).stage)
                == next_position(old(self).index, old(self).stage) && chunk_done == (old(
                self).stage == Stage::Data),
    {
        if self.halted || self.index >= self.plan.len() {
            return false;
        }
        if result.is_err() {
            self.failed = true;
            if self.policy == FailurePolicy::AbortOnError {
                self.halted = true;
                return false;
            }
        }
        match self.stage {
            Stage::Erase => {
                self.stage = Stage::SetAddress;
                false
            },
            Stage::SetAddress => {
                self.stage = Stage::Data;
                false
            },
            Stage::Data => {
                self.index = self.index + 1;
                self.stage = Stage::Erase;
                true
            },
        }
    }
}

} // verus!
