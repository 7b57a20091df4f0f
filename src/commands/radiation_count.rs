//! Radiation count
//!
//! Reads the raw count of each radiation channel. The response holds no
//! status byte: each channel's count follows the previous one, big-endian,
//! in a fixed number of bytes. The number of channels and the width of a
//! count depend on the board revision.
use vstd::prelude::*;

use crate::command::Command;
use crate::{is_parsing_failure, CounterError, CounterResult};

verus! {

/// Opcode of the radiation count command.
pub const OPCODE: u8 = 0x01;

/// The shape of a radiation count response on one board revision.
#[derive(Clone, Copy, Debug, PartialEq, Eq)]
pub struct Layout {
    /// Number of radiation channels
    pub channels: usize,
    /// Number of bytes of each channel's count
    pub width: usize,
}

impl Layout {
    /// A count fits a `u32` and the response length fits a `usize`.
    pub open spec fn wf(self) -> bool {
        &&& self.width <= 4
        &&& self.channels * self.width <= usize::MAX
    }

    /// Length of the response.
    pub open spec fn response_len(self) -> nat {
        (self.channels * self.width) as nat
    }

    /// Three channels of two bytes each.
    pub fn standard() -> (r: Layout)
        ensures
            r.channels == 3,
            r.width == 2,
            r.wf(),
    {
        Layout { channels: 3, width: 2 }
    }
}

/// `256` to the power `n`.
pub open spec fn pow256(n: nat) -> nat
    decreases n,
{
    if n == 0 {
        1
    } else {
        256 * pow256((n - 1) as nat)
    }
}

/// The number that bytes `s` give, most significant first.
pub open spec fn be_value(s: Seq<u8>) -> nat
    decreases s.len(),
{
    if s.len() == 0 {
        0
    } else {
        (be_value(s.drop_last()) * 256 + s.last()) as nat
    }
}

/// The counts that a response of the right length holds.
pub open spec fn spec_counts(data: Seq<u8>, layout: Layout) -> Seq<u32> {
    Seq::new(
        layout.channels as nat,
        |i: int| be_value(data.subrange(i * layout.width, (i + 1) * layout.width)) as u32,
    )
}

/// What a radiation count response decodes to.
pub open spec fn spec_parse(data: Seq<u8>, layout: Layout) -> Result<Seq<u32>, ()> {
    if data.len() == layout.response_len() {
        Ok(spec_counts(data, layout))
    } else {
        Err(())
    }
}

/// Name given to a malformed radiation count response.
pub open spec fn source() -> Seq<char> {
    "Radiation Count"@
}

/// A number of `s.len()` bytes is below `256` to that power.
pub proof fn lemma_be_value_bound(s: Seq<u8>)
    ensures
        be_value(s) < pow256(s.len()),
    decreases s.len(),
{
    if s.len() > 0 {
        let p = s.drop_last();
        lemma_be_value_bound(p);
        let a = be_value(p) as int;
        let b = s.last() as int;
        let q = pow256(p.len()) as int;
        assert(a * 256 + b < q * 256) by (nonlinear_arith)
            requires
                a < q,
                0 <= b < 256,
        ;
    }
}

/// Powers of `256` grow with the exponent.
pub proof fn lemma_pow256_monotone(m: nat, n: nat)
    requires
        m <= n,
    ensures
        pow256(m) <= pow256(n),
    decreases n,
{
    if m < n {
        lemma_pow256_monotone(m, (n - 1) as nat);
    }
}

/// Reads `width` bytes at `start`, most significant first.
fn read_be(data: &[u8], start: usize, width: usize) -> (r: u32)
    requires
        width <= 4,
        start + width <= data@.len(),
    ensures
        r == be_value(data@.subrange(start as int, start + width)),
{
    let n = data.len();
    let mut v: u32 = 0;
    let mut j: usize = 0;
    while j < width
        invariant
            j <= width <= 4,
            n == data@.len(),
            start + width <= n,
            v == be_value(data@.subrange(start as int, start + j)),
        decreases width - j,
    {
        let ghost s = data@.subrange(start as int, start + j + 1);
        assert(s.drop_last() =~= data@.subrange(start as int, start + j));
        proof {
            lemma_be_value_bound(s);
            lemma_pow256_monotone((j + 1) as nat, 4);
            assert(pow256(0) == 1);
            assert(pow256(1) == 256);
            assert(pow256(2) == 0x1_0000);
            assert(pow256(3) == 0x100_0000);
            assert(pow256(4) == 0x1_0000_0000);
        }
        v = v * 256 + data[start + j] as u32;
        j = j + 1;
    }
    v
}

/// Decodes a radiation count response.
pub fn parse(data: &[u8], layout: Layout) -> (r: CounterResult<Vec<u32>>)
    requires
        layout.wf(),
    ensures
        spec_parse(data@, layout) matches Ok(c) ==> r matches Ok(v) && v@ == c,
        spec_parse(data@, layout) is Err ==> r is Err && is_parsing_failure(r->Err_0, source()),
{
    let w = layout.width;
    if data.len() != layout.channels * w {
        return Err(CounterError::parsing_failure("Radiation Count"));
    }
    let mut counts: Vec<u32> = Vec::with_capacity(layout.channels);
    let mut i: usize = 0;
    while i < layout.channels
        invariant
            layout.wf(),
            w == layout.width,
            i <= layout.channels,
            data@.len() == layout.channels * w,
            counts@ == spec_counts(data@, layout).subrange(0, i as int),
        decreases layout.channels - i,
    {
        assert((i + 1) * w <= layout.channels * w) by (nonlinear_arith)
            requires
                i + 1 <= layout.channels,
        ;
        assert((i + 1) * w == i * w + w) by (nonlinear_arith);
        let c = read_be(data, i * w, w);
        counts.push(c);
        i = i + 1;
    }
    assert(counts@ =~= spec_counts(data@, layout));
    Ok(counts)
}

/// The radiation count command and the length of its response.
pub fn command(layout: Layout) -> (r: (Command, usize))
    requires
        layout.wf(),
    ensures
        r.0.frame() == (OPCODE, Seq::<u8>::empty()),
        r.1 == layout.response_len(),
{
    (Command { cmd: OPCODE, data: Vec::new() }, layout.channels * layout.width)
}

} // verus!
