//! The layout of samples: channels of equal length, and the flat,
//! channel-major order in which a rectangle of samples is written out.

use vstd::arithmetic::div_mod::{lemma_fundamental_div_mod, lemma_fundamental_div_mod_converse};
use vstd::prelude::*;

verus! {

/// Every row of `chans` holds exactly `samples` values.
pub open spec fn is_rectangular<S>(chans: Seq<Seq<S>>, samples: nat) -> bool {
    forall|c: int| 0 <= c < chans.len() ==> (#[trigger] chans[c]).len() == samples
}

/// The rows of `chans`, each of length `samples`, written one after another.
pub open spec fn flatten<S>(chans: Seq<Seq<S>>, samples: nat) -> Seq<S> {
    Seq::new(chans.len() * samples, |i: int| chans[i / (samples as int)][i % (samples as int)])
}

/// `flat` cut into `channels` rows of equal length: row `c` holds the
/// elements from `c * (len / channels)` up to `(c + 1) * (len / channels)`.
pub open spec fn split<S>(flat: Seq<S>, channels: nat) -> Seq<Seq<S>> {
    let samples = flat.len() as int / channels as int;
    Seq::new(channels, |c: int| flat.subrange(c * samples, (c + 1) * samples))
}

/// `b` has the length of `a`, and each element of `b` is a clone of the
/// element of `a` at the same index.
pub open spec fn cloned_seq<S: Clone>(a: Seq<S>, b: Seq<S>) -> bool {
    &&& a.len() == b.len()
    &&& forall|i: int| 0 <= i < a.len() ==> cloned(a[i], #[trigger] b[i])
}

/// The contents of a list of vectors, one sequence for each vector.
pub open spec fn rows_view<S>(rows: Seq<Vec<S>>) -> Seq<Seq<S>> {
    Seq::new(rows.len(), |c: int| rows[c]@)
}

/// Flat index `c * samples + s` splits back into channel `c` and sample `s`.
pub proof fn lemma_flat_index(c: int, s: int, samples: int)
    requires
        0 <= c,
        0 <= s < samples,
    ensures
        (c * samples + s) / samples == c,
        (c * samples + s) % samples == s,
        0 <= c * samples + s < (c + 1) * samples,
{
    assert(c * samples + s == c * samples + s && (c + 1) * samples == c * samples + samples
        && c * samples >= 0) by (nonlinear_arith)
        requires
            0 <= c,
            0 <= samples,
    ;
    lemma_fundamental_div_mod_converse(c * samples + s, samples, c, s);
}

/// In the flat order, sample `s` of channel `c` stands at `c * samples + s`.
pub proof fn lemma_flatten_index<S>(chans: Seq<Seq<S>>, samples: nat, c: int, s: int)
    requires
        0 <= c < chans.len(),
        0 <= s < samples,
    ensures
        0 <= c * samples + s < flatten(chans, samples).len(),
        flatten(chans, samples)[c * samples + s] == chans[c][s],
{
    lemma_flat_index(c, s, samples as int);
    assert((c + 1) * samples <= chans.len() * samples) by (nonlinear_arith)
        requires
            c + 1 <= chans.len(),
            0 <= samples,
    ;
}

/// Cutting a flat sequence into rows gives a rectangle of
/// `len / channels` samples per row.
pub proof fn lemma_split_rectangular<S>(flat: Seq<S>, channels: nat)
    requires
        channels > 0,
        flat.len() % channels == 0,
    ensures
        split(flat, channels).len() == channels,
        is_rectangular(split(flat, channels), flat.len() / channels),
        ({
            let n = flat.len() as int / channels as int;
            forall|c: int, s: int|
                0 <= c < channels && 0 <= s < n ==> (#[trigger] split(flat, channels)[c][s])
                    == flat[c * n + s]
        }),
{
    let n = flat.len() as int / channels as int;
    lemma_fundamental_div_mod(flat.len() as int, channels as int);
    assert(flat.len() == channels * n);
    assert(n == flat.len() / channels);
    assert forall|c: int| 0 <= c < channels implies (#[trigger] split(flat, channels)[c]).len()
        == n by {
        assert(0 <= c * n && c * n + n == (c + 1) * n && (c + 1) * n <= channels * n)
            by (nonlinear_arith)
            requires
                0 <= c,
                c + 1 <= channels,
                0 <= n,
        ;
    }
    assert forall|c: int, s: int| 0 <= c < channels && 0 <= s < n implies (#[trigger] split(
        flat,
        channels,
    )[c][s]) == flat[c * n + s] by {
        assert(0 <= c * n && c * n + n == (c + 1) * n && (c + 1) * n <= channels * n)
            by (nonlinear_arith)
            requires
                0 <= c,
                c + 1 <= channels,
                0 <= n,
        ;
    }
}

/// Flattening a rectangle and cutting the result into as many rows as the
/// rectangle has gives the rectangle back.
pub proof fn lemma_split_flatten<S>(chans: Seq<Seq<S>>, samples: nat)
    requires
        is_rectangular(chans, samples),
    ensures
        split(flatten(chans, samples), chans.len()) == chans,
{
    let channels = chans.len();
    let flat = flatten(chans, samples);
    let rows = split(flat, channels);
    assert(rows.len() == chans.len());
    if channels > 0 {
        let n = flat.len() as int / channels as int;
        assert(n == samples) by {
            assert(flat.len() == samples * channels) by (nonlinear_arith)
                requires
                    flat.len() == channels * samples,
            ;
            lemma_fundamental_div_mod_converse(
                flat.len() as int,
                channels as int,
                samples as int,
                0,
            );
        }
        assert forall|c: int| 0 <= c < channels implies #[trigger] rows[c] =~= chans[c] by {
            assert(0 <= c * n && c * n + n == (c + 1) * n && (c + 1) * n <= channels * n)
                by (nonlinear_arith)
                requires
                    0 <= c,
                    c + 1 <= channels,
                    0 <= n,
            ;
            assert forall|s: int| 0 <= s < n implies rows[c][s] == chans[c][s] by {
                lemma_flatten_index(chans, samples, c, s);
            }
        }
    }
    assert(rows =~= chans);
}

/// Cutting a flat sequence into rows and flattening the rows gives the flat
/// sequence back.
pub proof fn lemma_flatten_split<S>(flat: Seq<S>, channels: nat)
    requires
        channels > 0,
        flat.len() % channels == 0,
    ensures
        flatten(split(flat, channels), flat.len() / channels) == flat,
{
    let n = flat.len() / channels;
    let rows = split(flat, channels);
    let back = flatten(rows, n);
    lemma_split_rectangular(flat, channels);
    lemma_fundamental_div_mod(flat.len() as int, channels as int);
    assert(back.len() == flat.len());
    assert forall|i: int| 0 <= i < flat.len() implies back[i] == flat[i] by {
        let c = i / (n as int);
        let s = i % (n as int);
        assert(n > 0) by (nonlinear_arith)
            requires
                flat.len() == channels * n,
                0 <= i < flat.len(),
        ;
        lemma_fundamental_div_mod(i, n as int);
        assert(0 <= c < channels) by (nonlinear_arith)
            requires
                i == n * c + s,
                0 <= s < n,
                0 <= i < channels * n,
        ;
        assert(c * n + s == i) by (nonlinear_arith)
            requires
                i == n * c + s,
        ;
        assert(rows[c][s] == flat[c * n + s]);
    }
    assert(back =~= flat);
}

} // verus!
