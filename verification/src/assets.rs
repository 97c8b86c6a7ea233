use vstd::prelude::*;
use vstd::arithmetic::div_mod::{lemma_mod_breakdown, lemma_small_mod};

use crate::timecode::{digit, spec_digit_byte};

verus! {

// The asset directory is a single root path per application run.  Every
// generated file lives under it at a path of the shape
// `<root>/<20-digit token>.<extension>`; the token is drawn from a counter
// that only ever moves forward, which is what makes concurrently allocated
// output paths collision-free.  Creating the directory on disk, and the
// freshness of a newly created file's modification time, are the shell's
// side of the contract.
//
// Byte values used below: '/' = 47, '.' = 46, '0' = 48.

/// Ten to the power `w`.
pub open spec fn pow10(w: nat) -> nat
    decreases w,
{
    if w == 0 {
        1
    } else {
        10 * pow10((w - 1) as nat)
    }
}

/// `t` written in decimal, zero-padded to exactly `w` digits
/// (most significant first, modulo `pow10(w)`).
pub open spec fn spec_padded_digits(t: nat, w: nat) -> Seq<u8>
    decreases w,
{
    if w == 0 {
        Seq::empty()
    } else {
        spec_padded_digits(t / 10, (w - 1) as nat).push(spec_digit_byte(t))
    }
}

/// The number a digit string denotes.
pub open spec fn spec_digits_value(s: Seq<u8>) -> nat
    decreases s.len(),
{
    if s.len() == 0 {
        0
    } else {
        10 * spec_digits_value(s.drop_last()) + digit(s, s.len() - 1)
    }
}

/// The output path allocated for token `token` with extension `ext`.
pub open spec fn spec_output_path(root: Seq<u8>, token: u64, ext: Seq<u8>) -> Seq<u8> {
    root + seq![47u8] + spec_padded_digits(token as nat, 20) + seq![46u8] + ext
}

/// `pow10` never vanishes.
pub proof fn lemma_pow10_positive(w: nat)
    ensures
        pow10(w) >= 1,
    decreases w,
{
    if w > 0 {
        lemma_pow10_positive((w - 1) as nat);
    }
}

/// Every `u64` has fewer than 21 decimal digits.
pub proof fn lemma_u64_below_pow10_20(t: u64)
    ensures
        (t as nat) < pow10(20),
{
    assert(pow10(0) == 1);
    assert(pow10(1) == 10);
    assert(pow10(2) == 100);
    assert(pow10(3) == 1000);
    assert(pow10(4) == 10000);
    assert(pow10(5) == 100000);
    assert(pow10(6) == 1000000);
    assert(pow10(7) == 10000000);
    assert(pow10(8) == 100000000);
    assert(pow10(9) == 1000000000);
    assert(pow10(10) == 10000000000);
    assert(pow10(11) == 100000000000);
    assert(pow10(12) == 1000000000000);
    assert(pow10(13) == 10000000000000);
    assert(pow10(14) == 100000000000000);
    assert(pow10(15) == 1000000000000000);
    assert(pow10(16) == 10000000000000000);
    assert(pow10(17) == 100000000000000000);
    assert(pow10(18) == 1000000000000000000);
    assert(pow10(19) == 10000000000000000000);
    assert(pow10(20) == 100000000000000000000);
}

/// Reading the padded digits back gives the token, modulo `pow10(w)`.
pub proof fn lemma_padded_digits_value(t: nat, w: nat)
    ensures
        spec_digits_value(spec_padded_digits(t, w)) == t % pow10(w),
    decreases w,
{
    if w == 0 {
        assert(t % 1 == 0) by (nonlinear_arith);
    } else {
        let prev = spec_padded_digits(t / 10, (w - 1) as nat);
        let s = spec_padded_digits(t, w);
        lemma_padded_digits_value(t / 10, (w - 1) as nat);
        assert(s.drop_last() =~= prev);
        assert(digit(s, s.len() - 1) == t % 10);
        lemma_pow10_positive((w - 1) as nat);
        lemma_mod_breakdown(t as int, 10, pow10((w - 1) as nat) as int);
    }
}

/// Zero-padded rendering is injective on tokens.
pub proof fn lemma_padded_digits_injective(t1: u64, t2: u64)
    requires
        spec_padded_digits(t1 as nat, 20) == spec_padded_digits(t2 as nat, 20),
    ensures
        t1 == t2,
{
    lemma_padded_digits_value(t1 as nat, 20);
    lemma_padded_digits_value(t2 as nat, 20);
    lemma_u64_below_pow10_20(t1);
    lemma_u64_below_pow10_20(t2);
    lemma_pow10_positive(20);
    lemma_small_mod(t1 as nat, pow10(20));
    lemma_small_mod(t2 as nat, pow10(20));
}

/// A `w`-wide rendering consists of exactly `w` digits.
pub proof fn lemma_padded_digits_len(t: nat, w: nat)
    ensures
        spec_padded_digits(t, w).len() == w,
    decreases w,
{
    if w > 0 {
        lemma_padded_digits_len(t / 10, (w - 1) as nat);
    }
}

/// Distinct tokens always give distinct output paths under the same root,
/// whatever the requested extensions: the token occupies a fixed window of
/// the path, and its zero-padded rendering is injective.
pub proof fn lemma_output_paths_distinct(
    root: Seq<u8>,
    t1: u64,
    t2: u64,
    ext1: Seq<u8>,
    ext2: Seq<u8>,
)
    requires
        t1 != t2,
    ensures
        spec_output_path(root, t1, ext1) != spec_output_path(root, t2, ext2),
{
    let pad1 = spec_padded_digits(t1 as nat, 20);
    let pad2 = spec_padded_digits(t2 as nat, 20);
    let p1 = spec_output_path(root, t1, ext1);
    let p2 = spec_output_path(root, t2, ext2);
    lemma_padded_digits_len(t1 as nat, 20);
    lemma_padded_digits_len(t2 as nat, 20);
    if p1 == p2 {
        assert forall|k: int| 0 <= k < 20 implies pad1[k] == pad2[k] by {
            let i = root.len() + 1 + k;
            assert(p1[i] == pad1[k]);
            assert(p2[i] == pad2[k]);
        }
        assert(pad1 =~= pad2);
        lemma_padded_digits_injective(t1, t2);
        assert(false);
    }
}

/// The working directory for generated artifacts, with the counter from
/// which collision-free output paths are drawn.
pub struct AssetDirectory {
    pub root: Vec<u8>,
    pub next_token: u64,
}

/// Appends `t` to `v` as exactly `width` zero-padded decimal digits.
fn push_padded_digits(v: &mut Vec<u8>, t: u64, width: usize)
    ensures
        final(v)@ == old(v)@ + spec_padded_digits(t as nat, width as nat),
    decreases width,
{
    if width == 0 {
        proof {
            assert(v@ =~= v@ + spec_padded_digits(t as nat, 0));
        }
    } else {
        push_padded_digits(v, t / 10, width - 1);
        v.push(48 + ((t % 10) as u8));
        proof {
            assert(v@ =~= old(v)@ + spec_padded_digits(t as nat, width as nat));
        }
    }
}

/// Appends all of `bytes` to `v`.
pub(crate) fn push_bytes(v: &mut Vec<u8>, bytes: &[u8])
    ensures
        final(v)@ == old(v)@ + bytes@,
{
    let n = bytes.len();
    let mut i: usize = 0;
    proof {
        assert(v@ =~= v@ + bytes@.take(0));
    }
    while i < n
        invariant
            i <= n,
            n == bytes@.len(),
            v@ == old(v)@ + bytes@.take(i as int),
        decreases n - i,
    {
        v.push(bytes[i]);
        proof {
            assert(v@ =~= old(v)@ + bytes@.take(i + 1));
        }
        i += 1;
    }
    proof {
        assert(bytes@.take(n as int) =~= bytes@);
    }
}

impl AssetDirectory {
    /// A manager over the given root path, with no paths allocated yet.
    pub fn new(root: Vec<u8>) -> (r: AssetDirectory)
        ensures
            r.root@ == root@,
            r.next_token == 0,
    {
        AssetDirectory { root, next_token: 0 }
    }

    /// A manager over the given root path whose next token starts at
    /// `first_token`.  A shell that keeps one root across process runs can
    /// seed each run with a time-derived token, so that paths stay
    /// collision-free across runs as long as the seeds differ.
    pub fn resume(root: Vec<u8>, first_token: u64) -> (r: AssetDirectory)
        ensures
            r.root@ == root@,
            r.next_token == first_token,
    {
        AssetDirectory { root, next_token: first_token }
    }

    /// The root path every generated file lives under.
    pub fn get_asset_dir(&self) -> (r: &Vec<u8>)
        ensures
            r@ == self.root@,
    {
        &self.root
    }

    /// Allocates a collision-free output path inside the asset directory:
    /// the next token, rendered as 20 zero-padded decimal digits, with the
    /// desired extension.  Each call consumes its token, so no two calls on
    /// one directory ever return the same path.
    pub fn allocate_output_path(&mut self, extension: &[u8]) -> (r: Vec<u8>)
        requires
            old(self).next_token < u64::MAX,
        ensures
            final(self).root@ == old(self).root@,
            final(self).next_token == old(self).next_token + 1,
            r@ == spec_output_path(old(self).root@, old(self).next_token, extension@),
    {
        let token = self.next_token;
        self.next_token = token + 1;
        let mut path: Vec<u8> = Vec::new();
        let root_slice: &[u8] = self.root.as_slice();
        push_bytes(&mut path, root_slice);
        path.push(47u8);
        push_padded_digits(&mut path, token, 20);
        path.push(46u8);
        push_bytes(&mut path, extension);
        proof {
            assert(path@ =~= spec_output_path(self.root@, token, extension@));
        }
        path
    }
}

} // verus!
