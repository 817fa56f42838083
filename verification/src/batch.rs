//! Frame batching: grouping live sprites by layer then shader, the
//! two-triangle quad index pattern, and packing evaluated attribute
//! bytes into the interleaved vertex buffer layout.

use vstd::prelude::*;

use vstd::arithmetic::mul::{
    lemma_mul_inequality, lemma_mul_is_distributive_add_other_way, lemma_mul_nonnegative,
};
use vstd::pervasive::cloned;

use crate::ids::ShaderId;
use crate::shader::{attr_widths_sum, lemma_attr_widths_sum_mono, Attribute, SPRITE_CAPACITY};
use crate::sprite::Sprite;

verus! {

/// Entries `6i` to `6i + 5` of `s` hold the two-triangle quad pattern
/// `[0, 1, 2, 2, 1, 3]` offset by `4i`.
pub open spec fn quad_block_at(s: Seq<u32>, i: int) -> bool {
    &&& s[6 * i] == 4 * i
    &&& s[6 * i + 1] == 4 * i + 1
    &&& s[6 * i + 2] == 4 * i + 2
    &&& s[6 * i + 3] == 4 * i + 2
    &&& s[6 * i + 4] == 4 * i + 1
    &&& s[6 * i + 5] == 4 * i + 3
}

/// The index buffer for a batch of `sprite_count` sprites: for sprite `i`
/// the six entries `[4i, 4i+1, 4i+2, 4i+2, 4i+1, 4i+3]`, two triangles
/// over the sprite's own four vertices.
pub fn quad_indices(sprite_count: usize) -> (r: Vec<u32>)
    requires
        sprite_count <= SPRITE_CAPACITY,
    ensures
        r@.len() == 6 * sprite_count,
        forall|i: int| 0 <= i < sprite_count ==> quad_block_at(r@, i),
{
    let mut r: Vec<u32> = Vec::new();
    let mut i: usize = 0;
    while i < sprite_count
        invariant
            sprite_count <= SPRITE_CAPACITY,
            i <= sprite_count,
            r@.len() == 6 * i,
            forall|j: int| 0 <= j < i ==> quad_block_at(r@, j),
        decreases sprite_count - i,
    {
        let ghost r0 = r@;
        let base: u32 = (i as u32) * 4;
        r.push(base);
        r.push(base + 1);
        r.push(base + 2);
        r.push(base + 2);
        r.push(base + 1);
        r.push(base + 3);
        proof {
            assert forall|j: int| 0 <= j < i + 1 implies quad_block_at(r@, j) by {
                if j < i {
                    assert(quad_block_at(r0, j));
                    assert(r@[6 * j] == r0[6 * j]);
                    assert(r@[6 * j + 1] == r0[6 * j + 1]);
                    assert(r@[6 * j + 2] == r0[6 * j + 2]);
                    assert(r@[6 * j + 3] == r0[6 * j + 3]);
                    assert(r@[6 * j + 4] == r0[6 * j + 4]);
                    assert(r@[6 * j + 5] == r0[6 * j + 5]);
                }
            }
        }
        i = i + 1;
    }
    r
}

/// Sprite `i`'s vertex `v` (vertex number `4i + v`) is referenced by one
/// of sprite `i`'s own six index entries.
pub open spec fn references_vertex(s: Seq<u32>, i: int, v: int) -> bool {
    exists|k: int| 6 * i <= k < 6 * i + 6 && s[k] == 4 * i + v
}

/// Law: in the generated index buffer for `n` sprites, every entry `k`
/// references one of the four vertices `4(k/6) .. 4(k/6)+3` belonging to
/// sprite `k/6`; each sprite's four vertices are all referenced by its
/// own six entries; and entries of different sprites never share a
/// vertex. Together with the length `6n` this says the buffer describes
/// `n` disjoint quads over `4n` distinct vertices.
pub proof fn lemma_quad_indices_partition(s: Seq<u32>, n: int)
    requires
        0 <= n,
        s.len() == 6 * n,
        forall|i: int| 0 <= i < n ==> quad_block_at(s, i),
    ensures
        forall|k: int| 0 <= k < 6 * n ==> 4 * (k / 6) <= #[trigger] s[k] <= 4 * (k / 6) + 3,
        forall|i: int, v: int|
            0 <= i < n && 0 <= v < 4 ==> #[trigger] references_vertex(s, i, v),
        forall|k1: int, k2: int|
            0 <= k1 < 6 * n && 0 <= k2 < 6 * n && k1 / 6 != k2 / 6 ==> #[trigger] s[k1]
                != #[trigger] s[k2],
{
    assert forall|k: int| 0 <= k < 6 * n implies 4 * (k / 6) <= #[trigger] s[k] <= 4 * (k / 6)
        + 3 by {
        let i = k / 6;
        assert(0 <= i < n);
        assert(quad_block_at(s, i));
        assert(k == 6 * i + k % 6);
    }
    assert forall|i: int, v: int| 0 <= i < n && 0 <= v < 4 implies #[trigger] references_vertex(
        s,
        i,
        v,
    ) by {
        assert(quad_block_at(s, i));
        if v == 0 {
            assert(s[6 * i] == 4 * i + v);
        } else if v == 1 {
            assert(s[6 * i + 1] == 4 * i + v);
        } else if v == 2 {
            assert(s[6 * i + 2] == 4 * i + v);
        } else {
            assert(s[6 * i + 5] == 4 * i + v);
        }
    }
}

/// A `(layer, shader)` grouping key.
#[derive(Copy, Clone, PartialEq, Eq, Structural, Debug)]
pub struct BatchKey {
    pub layer: i32,
    pub shader: ShaderId,
}

/// One draw call's worth of sprites: all sprites of a frame that share
/// `layer` and `shader`, in their original order. Batches live only for
/// the duration of one frame.
///
/// Known limitation: uniform slots are evaluated once per batch against
/// the batch's first sprite, so a uniform that varies within the batch
/// (a sheet texture, when members reference different sheets) takes the
/// first member's value for the whole draw call. Callers that need
/// per-sprite uniforms should give those sprites distinct shaders.
pub struct Batch {
    pub layer: i32,
    pub shader: ShaderId,
    pub sprites: Vec<Sprite>,
}

/// Sprite `s` carries the grouping key `key`.
pub open spec fn sprite_has_key(s: Sprite, key: BatchKey) -> bool {
    s.layer == key.layer && s.shader == key.shader
}

/// Some key of `keys` is `key`.
pub open spec fn key_listed(keys: Seq<BatchKey>, key: BatchKey) -> bool {
    exists|b: int| 0 <= b < keys.len() && keys[b] == key
}

/// Some sprite of `input` carries `key`.
pub open spec fn key_occurs(input: Seq<Sprite>, key: BatchKey) -> bool {
    exists|j: int| 0 <= j < input.len() && sprite_has_key(#[trigger] input[j], key)
}

/// Keys are in ascending layer order.
pub open spec fn keys_sorted(keys: Seq<BatchKey>) -> bool {
    forall|b1: int, b2: int|
        0 <= b1 < b2 < keys.len() ==> (#[trigger] keys[b1]).layer <= (#[trigger] keys[b2]).layer
}

/// No key appears twice.
pub open spec fn keys_distinct(keys: Seq<BatchKey>) -> bool {
    forall|b1: int, b2: int| 0 <= b1 < b2 < keys.len() ==> keys[b1] != keys[b2]
}

/// `keys` lists exactly the keys that occur in `input`: every sprite's
/// key is listed, and every listed key occurs.
pub open spec fn keys_exact(input: Seq<Sprite>, keys: Seq<BatchKey>) -> bool {
    &&& forall|j: int|
        0 <= j < input.len() ==> key_listed(
            keys,
            BatchKey { layer: (#[trigger] input[j]).layer, shader: input[j].shader },
        )
    &&& forall|b: int| 0 <= b < keys.len() ==> key_occurs(input, #[trigger] keys[b])
}

/// The subsequence of `s` whose sprites lie on `layer` and use `shader`,
/// in their original order.
pub open spec fn filter_key(s: Seq<Sprite>, layer: i32, shader: ShaderId) -> Seq<Sprite>
    decreases s.len(),
{
    if s.len() == 0 {
        Seq::empty()
    } else {
        let rest = filter_key(s.drop_last(), layer, shader);
        if s.last().layer == layer && s.last().shader == shader {
            rest.push(s.last())
        } else {
            rest
        }
    }
}

/// Every sprite selected by `filter_key` carries the key it was selected
/// by.
pub proof fn lemma_filter_key_elems(s: Seq<Sprite>, layer: i32, shader: ShaderId)
    ensures
        forall|k: int|
            0 <= k < filter_key(s, layer, shader).len() ==> {
                &&& (#[trigger] filter_key(s, layer, shader)[k]).layer == layer
                &&& filter_key(s, layer, shader)[k].shader == shader
            },
        filter_key(s, layer, shader).len() <= s.len(),
    decreases s.len(),
{
    if s.len() > 0 {
        lemma_filter_key_elems(s.drop_last(), layer, shader);
    }
}

/// If some sprite of `s` carries the key, the filtered sequence is not
/// empty.
pub proof fn lemma_filter_key_nonempty(s: Seq<Sprite>, layer: i32, shader: ShaderId, j: int)
    requires
        0 <= j < s.len(),
        s[j].layer == layer,
        s[j].shader == shader,
    ensures
        filter_key(s, layer, shader).len() > 0,
    decreases s.len(),
{
    if j < s.len() - 1 {
        lemma_filter_key_nonempty(s.drop_last(), layer, shader, j);
    }
}

/// A sprite of `s` that carries the key is kept by `filter_key`.
pub proof fn lemma_filter_key_contains(s: Seq<Sprite>, layer: i32, shader: ShaderId, j: int)
    requires
        0 <= j < s.len(),
        s[j].layer == layer,
        s[j].shader == shader,
    ensures
        exists|k: int|
            0 <= k < filter_key(s, layer, shader).len() && filter_key(s, layer, shader)[k] == s[j],
    decreases s.len(),
{
    if j == s.len() - 1 {
        let f = filter_key(s, layer, shader);
        assert(f[f.len() - 1] == s[j]);
    } else {
        lemma_filter_key_contains(s.drop_last(), layer, shader, j);
        let rest = filter_key(s.drop_last(), layer, shader);
        let k0 = choose|k: int| 0 <= k < rest.len() && rest[k] == s.drop_last()[j];
        assert(filter_key(s, layer, shader)[k0] == rest[k0]);
        assert(s.drop_last()[j] == s[j]);
    }
}

/// The distinct `(layer, shader)` keys occurring in `sprites`, in
/// ascending layer order.
#[verifier::rlimit(50)]
fn collect_keys(sprites: &Vec<Sprite>) -> (keys: Vec<BatchKey>)
    ensures
        keys_sorted(keys@),
        keys_distinct(keys@),
        keys_exact(sprites@, keys@),
{
    let mut keys: Vec<BatchKey> = Vec::new();
    let mut i: usize = 0;
    while i < sprites.len()
        invariant
            i <= sprites@.len(),
            keys_sorted(keys@),
            keys_distinct(keys@),
            keys_exact(sprites@.subrange(0, i as int), keys@),
        decreases sprites@.len() - i,
    {
        let ghost prefix = sprites@.subrange(0, i as int);
        let ghost prefix1 = sprites@.subrange(0, i + 1);
        proof {
            assert(prefix1.drop_last() =~= prefix);
            assert(prefix1.last() == sprites@[i as int]);
        }
        let layer = sprites[i].layer;
        let shader = sprites[i].shader;
        let key = BatchKey { layer, shader };
        let mut found = false;
        let mut j: usize = 0;
        while j < keys.len()
            invariant
                j <= keys@.len(),
                found <==> exists|b: int| 0 <= b < j && keys@[b] == key,
            decreases keys@.len() - j,
        {
            if keys[j] == key {
                found = true;
            }
            j = j + 1;
        }
        if !found {
            let mut p: usize = 0;
            while p < keys.len() && keys[p].layer <= layer
                invariant
                    p <= keys@.len(),
                    forall|b: int| 0 <= b < p ==> (#[trigger] keys@[b]).layer <= layer,
                decreases keys@.len() - p,
            {
                p = p + 1;
            }
            let ghost keys0 = keys@;
            proof {
                keys0.insert_ensures(p as int, key);
                assert forall|b: int| p < b < keys0.len() + 1 implies (#[trigger] keys0.insert(
                    p as int,
                    key,
                )[b]).layer > layer by {
                    assert(keys0.insert(p as int, key)[b] == keys0[b - 1]);
                    if keys0[b - 1].layer <= layer {
                        // `p` stopped at the first entry on a later layer.
                        assert(keys0[p as int].layer > layer);
                        assert(keys0[p as int].layer <= keys0[b - 1].layer);
                        assert(false);
                    }
                }
            }
            keys.insert(p, key);
            proof {
                assert forall|b1: int, b2: int| 0 <= b1 < b2 < keys@.len() implies (
                #[trigger] keys@[b1]).layer <= (#[trigger] keys@[b2]).layer by {
                    if b1 == p {
                        assert(keys@[b2].layer > layer);
                    } else if b2 == p {
                        assert(keys@[b1] == keys0[b1]);
                    }
                }
                assert forall|b1: int, b2: int| 0 <= b1 < b2 < keys@.len() implies keys@[b1]
                    != keys@[b2] by {
                    if b1 == p {
                        assert(keys@[b2] == keys0[b2 - 1]);
                        assert(!key_listed(keys0, key));
                        if keys@[b2] == key {
                            assert(key_listed(keys0, key));
                        }
                    } else if b2 == p {
                        assert(keys@[b1] == keys0[b1]);
                        if keys@[b1] == key {
                            assert(key_listed(keys0, key));
                        }
                    } else {
                        let a1: int = if b1 < p { b1 } else { b1 - 1 };
                        let a2: int = if b2 < p { b2 } else { b2 - 1 };
                        assert(keys@[b1] == keys0[a1]);
                        assert(keys@[b2] == keys0[a2]);
                    }
                }
                assert(keys@[p as int] == key);
                assert forall|j2: int| 0 <= j2 < prefix1.len() implies key_listed(
                    keys@,
                    BatchKey { layer: (#[trigger] prefix1[j2]).layer, shader: prefix1[j2].shader },
                ) by {
                    if j2 == i {
                        assert(keys@[p as int] == key);
                    } else {
                        let k2 = BatchKey { layer: prefix[j2].layer, shader: prefix[j2].shader };
                        assert(key_listed(keys0, k2));
                        let b0 = choose|b: int| 0 <= b < keys0.len() && keys0[b] == k2;
                        if b0 < p {
                            assert(keys@[b0] == k2);
                        } else {
                            assert(keys@[b0 + 1] == k2);
                        }
                    }
                }
                assert forall|b: int| 0 <= b < keys@.len() implies key_occurs(
                    prefix1,
                    #[trigger] keys@[b],
                ) by {
                    if b == p {
                        assert(sprite_has_key(prefix1[i as int], key));
                    } else {
                        let a: int = if b < p { b } else { b - 1 };
                        assert(keys@[b] == keys0[a]);
                        assert(key_occurs(prefix, keys0[a]));
                        let j0 = choose|j2: int|
                            0 <= j2 < prefix.len() && sprite_has_key(#[trigger] prefix[j2], keys0[a]);
                        assert(sprite_has_key(prefix1[j0], keys0[a]));
                    }
                }
            }
        } else {
            proof {
                let b0 = choose|b: int| 0 <= b < keys@.len() && keys@[b] == key;
                assert forall|j2: int| 0 <= j2 < prefix1.len() implies key_listed(
                    keys@,
                    BatchKey { layer: (#[trigger] prefix1[j2]).layer, shader: prefix1[j2].shader },
                ) by {
                    if j2 == i {
                        assert(keys@[b0] == key);
                    }
                }
                assert forall|b: int| 0 <= b < keys@.len() implies key_occurs(
                    prefix1,
                    #[trigger] keys@[b],
                ) by {
                    assert(key_occurs(prefix, keys@[b]));
                    let j0 = choose|j2: int|
                        0 <= j2 < prefix.len() && sprite_has_key(#[trigger] prefix[j2], keys@[b]);
                    assert(sprite_has_key(prefix1[j0], keys@[b]));
                }
            }
        }
        i = i + 1;
    }
    proof {
        assert(sprites@.subrange(0, i as int) =~= sprites@);
    }
    keys
}

/// Some batch of `batches` carries the key `(layer, shader)`.
pub open spec fn batches_have_key(batches: Seq<Batch>, layer: i32, shader: ShaderId) -> bool {
    exists|b: int|
        0 <= b < batches.len() && (#[trigger] batches[b]).layer == layer && batches[b].shader
            == shader
}

/// `batches` is the layer-then-shader batching of `input`:
/// - each batch holds exactly the input sprites sharing its key, in
///   input order, and is never empty;
/// - batches are ordered by ascending layer (painter's algorithm), with
///   no key repeated;
/// - every input sprite's key has a batch.
/// Together these make the batches a partition of the input.
pub open spec fn valid_batching(input: Seq<Sprite>, batches: Seq<Batch>) -> bool {
    &&& forall|b: int|
        0 <= b < batches.len() ==> (#[trigger] batches[b]).sprites@ == filter_key(
            input,
            batches[b].layer,
            batches[b].shader,
        )
    &&& forall|b: int| 0 <= b < batches.len() ==> (#[trigger] batches[b]).sprites@.len() > 0
    &&& forall|b1: int, b2: int|
        0 <= b1 < b2 < batches.len() ==> (#[trigger] batches[b1]).layer <= (
        #[trigger] batches[b2]).layer
    &&& forall|b1: int, b2: int|
        0 <= b1 < b2 < batches.len() ==> !((#[trigger] batches[b1]).layer == (
        #[trigger] batches[b2]).layer && batches[b1].shader == batches[b2].shader)
    &&& forall|i: int|
        0 <= i < input.len() ==> batches_have_key(
            batches,
            (#[trigger] input[i]).layer,
            input[i].shader,
        )
}

/// Partitions the sprites into draw batches keyed first by layer
/// (ascending) then by shader within each layer: one batch per distinct
/// `(layer, shader)` pair that occurs, each holding its sprites in input
/// order.
#[verifier::rlimit(50)]
pub fn build_batches(sprites: &Vec<Sprite>) -> (batches: Vec<Batch>)
    ensures
        valid_batching(sprites@, batches@),
{
    let keys = collect_keys(sprites);
    let mut batches: Vec<Batch> = Vec::new();
    let mut b: usize = 0;
    while b < keys.len()
        invariant
            b <= keys@.len(),
            batches@.len() == b,
            keys_sorted(keys@),
            keys_distinct(keys@),
            keys_exact(sprites@, keys@),
            forall|b2: int|
                0 <= b2 < b ==> (#[trigger] batches@[b2]).layer == keys@[b2].layer
                    && batches@[b2].shader == keys@[b2].shader,
            forall|b2: int|
                0 <= b2 < b ==> (#[trigger] batches@[b2]).sprites@ == filter_key(
                    sprites@,
                    batches@[b2].layer,
                    batches@[b2].shader,
                ),
            forall|b2: int| 0 <= b2 < b ==> (#[trigger] batches@[b2]).sprites@.len() > 0,
        decreases keys@.len() - b,
    {
        let layer = keys[b].layer;
        let shader = keys[b].shader;
        let mut group: Vec<Sprite> = Vec::new();
        let mut j: usize = 0;
        while j < sprites.len()
            invariant
                j <= sprites@.len(),
                group@ == filter_key(sprites@.subrange(0, j as int), layer, shader),
            decreases sprites@.len() - j,
        {
            proof {
                assert(sprites@.subrange(0, j + 1).drop_last() =~= sprites@.subrange(0, j as int));
                assert(sprites@.subrange(0, j + 1).last() == sprites@[j as int]);
            }
            if sprites[j].layer == layer && sprites[j].shader == shader {
                group.push(sprites[j]);
            }
            j = j + 1;
        }
        proof {
            assert(sprites@.subrange(0, sprites@.len() as int) =~= sprites@);
            assert(key_occurs(sprites@, keys@[b as int]));
            let j0 = choose|j2: int|
                0 <= j2 < sprites@.len() && sprite_has_key(#[trigger] sprites@[j2], keys@[b as int]);
            lemma_filter_key_nonempty(sprites@, layer, shader, j0);
        }
        batches.push(Batch { layer, shader, sprites: group });
        b = b + 1;
    }
    proof {
        assert forall|i2: int| 0 <= i2 < sprites@.len() implies batches_have_key(
            batches@,
            (#[trigger] sprites@[i2]).layer,
            sprites@[i2].shader,
        ) by {
            let k2 = BatchKey { layer: sprites@[i2].layer, shader: sprites@[i2].shader };
            assert(key_listed(keys@, k2));
            let b0 = choose|b2: int| 0 <= b2 < keys@.len() && keys@[b2] == k2;
            assert(batches@[b0].layer == k2.layer && batches@[b0].shader == k2.shader);
        }
    }
    batches
}

/// Total number of sprites across all batches.
pub open spec fn total_sprites(batches: Seq<Batch>) -> int
    decreases batches.len(),
{
    if batches.len() == 0 {
        0
    } else {
        total_sprites(batches.drop_last()) + batches.last().sprites@.len()
    }
}

/// The keys of the batches, in batch order.
pub open spec fn keys_of(batches: Seq<Batch>) -> Seq<BatchKey> {
    Seq::new(
        batches.len(),
        |b: int| BatchKey { layer: batches[b].layer, shader: batches[b].shader },
    )
}

/// Sum over `keys` of how many sprites of `input` carry each key.
spec fn sum_filter(input: Seq<Sprite>, keys: Seq<BatchKey>) -> int
    decreases keys.len(),
{
    if keys.len() == 0 {
        0
    } else {
        sum_filter(input, keys.drop_last()) + filter_key(
            input,
            keys.last().layer,
            keys.last().shader,
        ).len()
    }
}

proof fn lemma_sum_filter_empty(keys: Seq<BatchKey>)
    ensures
        sum_filter(Seq::<Sprite>::empty(), keys) == 0,
    decreases keys.len(),
{
    if keys.len() > 0 {
        lemma_sum_filter_empty(keys.drop_last());
    }
}

/// Dropping the last input sprite lowers the sum by one exactly when
/// its key is listed (each key at most once).
proof fn lemma_sum_filter_step(input: Seq<Sprite>, keys: Seq<BatchKey>)
    requires
        input.len() > 0,
        keys_distinct(keys),
    ensures
        sum_filter(input, keys) == sum_filter(input.drop_last(), keys) + (if key_listed(
            keys,
            BatchKey { layer: input.last().layer, shader: input.last().shader },
        ) {
            1int
        } else {
            0int
        }),
    decreases keys.len(),
{
    let sk = BatchKey { layer: input.last().layer, shader: input.last().shader };
    if keys.len() == 0 {
        assert(!key_listed(keys, sk));
    } else {
        let rest = keys.drop_last();
        assert forall|b1: int, b2: int| 0 <= b1 < b2 < rest.len() implies rest[b1] != rest[b2] by {
            assert(rest[b1] == keys[b1]);
            assert(rest[b2] == keys[b2]);
        }
        lemma_sum_filter_step(input, rest);
        let k = keys.last();
        let matched = input.last().layer == k.layer && input.last().shader == k.shader;
        assert(matched <==> sk == k);
        if matched {
            // The last key matches; by distinctness no earlier one does.
            assert(key_listed(keys, sk));
            if key_listed(rest, sk) {
                let b0 = choose|b: int| 0 <= b < rest.len() && rest[b] == sk;
                assert(keys[b0] == sk);
                assert(keys[b0] != keys[keys.len() - 1]);
                assert(false);
            }
        } else {
            // The last key does not match; listedness is decided by the rest.
            if key_listed(keys, sk) {
                let b0 = choose|b: int| 0 <= b < keys.len() && keys[b] == sk;
                assert(b0 < rest.len());
                assert(rest[b0] == sk);
            }
            if key_listed(rest, sk) {
                let b0 = choose|b: int| 0 <= b < rest.len() && rest[b] == sk;
                assert(keys[b0] == sk);
            }
        }
    }
}

/// If the distinct `keys` cover every input sprite's key, the filters
/// by those keys take in each input sprite exactly once.
proof fn lemma_sum_filter_total(input: Seq<Sprite>, keys: Seq<BatchKey>)
    requires
        keys_distinct(keys),
        forall|j: int|
            0 <= j < input.len() ==> key_listed(
                keys,
                BatchKey { layer: (#[trigger] input[j]).layer, shader: input[j].shader },
            ),
    ensures
        sum_filter(input, keys) == input.len(),
    decreases input.len(),
{
    if input.len() == 0 {
        assert(input =~= Seq::<Sprite>::empty());
        lemma_sum_filter_empty(keys);
    } else {
        let prefix = input.drop_last();
        assert forall|j: int| 0 <= j < prefix.len() implies key_listed(
            keys,
            BatchKey { layer: (#[trigger] prefix[j]).layer, shader: prefix[j].shader },
        ) by {
            assert(prefix[j] == input[j]);
        }
        lemma_sum_filter_total(prefix, keys);
        lemma_sum_filter_step(input, keys);
        assert(key_listed(
            keys,
            BatchKey { layer: input[input.len() - 1].layer, shader: input[input.len() - 1].shader },
        ));
    }
}

/// The batch totals equal the filter totals over the batches' keys.
proof fn lemma_total_eq_sum(input: Seq<Sprite>, batches: Seq<Batch>)
    requires
        forall|b: int|
            0 <= b < batches.len() ==> (#[trigger] batches[b]).sprites@ == filter_key(
                input,
                batches[b].layer,
                batches[b].shader,
            ),
    ensures
        total_sprites(batches) == sum_filter(input, keys_of(batches)),
    decreases batches.len(),
{
    if batches.len() > 0 {
        let rest = batches.drop_last();
        assert forall|b: int| 0 <= b < rest.len() implies (#[trigger] rest[b]).sprites@
            == filter_key(input, rest[b].layer, rest[b].shader) by {
            assert(rest[b] == batches[b]);
        }
        lemma_total_eq_sum(input, rest);
        assert(keys_of(batches).drop_last() =~= keys_of(rest));
        assert(keys_of(batches).last() == (BatchKey {
            layer: batches.last().layer,
            shader: batches.last().shader,
        }));
    }
}

/// Law: a valid batching is an exact partition of its input: summing
/// the batch sizes gives back exactly the number of live sprites, so
/// every sprite is batched once and nothing else is drawn.
pub proof fn lemma_batching_partition_size(input: Seq<Sprite>, batches: Seq<Batch>)
    requires
        valid_batching(input, batches),
    ensures
        total_sprites(batches) == input.len(),
{
    let keys = keys_of(batches);
    assert forall|b1: int, b2: int| 0 <= b1 < b2 < keys.len() implies keys[b1] != keys[b2] by {
        if keys[b1] == keys[b2] {
            assert(batches[b1].layer == batches[b2].layer && batches[b1].shader
                == batches[b2].shader);
        }
    }
    assert forall|j: int| 0 <= j < input.len() implies key_listed(
        keys,
        BatchKey { layer: (#[trigger] input[j]).layer, shader: input[j].shader },
    ) by {
        assert(batches_have_key(batches, input[j].layer, input[j].shader));
        let b0 = choose|b: int|
            0 <= b < batches.len() && (#[trigger] batches[b]).layer == input[j].layer
                && batches[b].shader == input[j].shader;
        assert(keys[b0] == (BatchKey { layer: input[j].layer, shader: input[j].shader }));
    }
    lemma_total_eq_sum(input, batches);
    lemma_sum_filter_total(input, keys);
}

/// Law: for two sprites live in the same frame on layers `L1 < L2`, the
/// batch (and so the draw call) of the first comes strictly before the
/// batch of the second.
pub proof fn lemma_layer_draw_order(
    input: Seq<Sprite>,
    batches: Seq<Batch>,
    b1: int,
    j1: int,
    b2: int,
    j2: int,
)
    requires
        valid_batching(input, batches),
        0 <= b1 < batches.len(),
        0 <= j1 < batches[b1].sprites@.len(),
        0 <= b2 < batches.len(),
        0 <= j2 < batches[b2].sprites@.len(),
        batches[b1].sprites@[j1].layer < batches[b2].sprites@[j2].layer,
    ensures
        b1 < b2,
{
    lemma_filter_key_elems(input, batches[b1].layer, batches[b1].shader);
    lemma_filter_key_elems(input, batches[b2].layer, batches[b2].shader);
    assert(batches[b1].sprites@[j1].layer == batches[b1].layer);
    assert(batches[b2].sprites@[j2].layer == batches[b2].layer);
    if b2 < b1 {
        assert(batches[b2].layer <= batches[b1].layer);
        assert(false);
    }
    if b1 == b2 {
        assert(false);
    }
}

/// In the packed buffer `out`, the bytes of attribute `a` for vertex `v`
/// of the sprite whose data starts at `base` are exactly `chunk`: one
/// vertex record is `bpv` bytes, attribute `a`'s data starts at its
/// derived offset within the record, and a sprite occupies 4 records.
pub open spec fn vertex_chunk_placed(
    out: Seq<u8>,
    attrs: Seq<Attribute>,
    chunk: Seq<u8>,
    base: int,
    v: int,
    a: int,
) -> bool {
    let bpv = attr_widths_sum(attrs, attrs.len() as int);
    let start = base + v * bpv + attr_widths_sum(attrs, a);
    out.subrange(start, start + attrs[a].data_type.spec_byte_width()) == chunk
}

/// `post` is `pre` with the bytes of `chunk` appended, as
/// `Vec::extend_from_slice` leaves them.
proof fn lemma_extended_bytes(pre: Seq<u8>, post: Seq<u8>, chunk: Seq<u8>)
    requires
        post.len() == pre.len() + chunk.len(),
        forall|i: int| 0 <= i < pre.len() ==> post[i] == pre[i],
        forall|i: int|
            pre.len() <= i < post.len() ==> cloned::<u8>(chunk[i - pre.len()], #[trigger] post[i]),
    ensures
        post == pre + chunk,
{
    assert forall|i: int| pre.len() <= i < post.len() implies post[i] == chunk[i - pre.len()] by {
        assert(cloned::<u8>(chunk[i - pre.len()], post[i]));
    }
    assert(post =~= pre + chunk);
}

/// A subrange lying inside the left part of a concatenation reads from
/// the left part alone.
proof fn lemma_append_keeps_subrange(s1: Seq<u8>, s2: Seq<u8>, x: int, y: int)
    requires
        0 <= x <= y <= s1.len(),
    ensures
        (s1 + s2).subrange(x, y) == s1.subrange(x, y),
{
    assert((s1 + s2).subrange(x, y) =~= s1.subrange(x, y));
}

/// A subrange lying inside the right part of a concatenation reads from
/// the right part alone, shifted by the left part's length.
proof fn lemma_append_offsets_subrange(s1: Seq<u8>, s2: Seq<u8>, x: int, y: int)
    requires
        0 <= x <= y <= s2.len(),
    ensures
        (s1 + s2).subrange(s1.len() + x, s1.len() + y) == s2.subrange(x, y),
{
    assert((s1 + s2).subrange(s1.len() + x, s1.len() + y) =~= s2.subrange(x, y));
}

/// Packs one sprite's evaluated attribute data into the interleaved
/// vertex layout: 4 vertex records in the fixed corner order, each
/// record the concatenation of all attributes' bytes for that vertex in
/// attribute order. `attr_values[a][v]` holds the bytes attribute `a`
/// computed for vertex `v`.
#[verifier::loop_isolation(false)]
#[verifier::rlimit(50)]
pub fn pack_sprite(attr_values: &Vec<Vec<Vec<u8>>>, attributes: &Vec<Attribute>) -> (r: Vec<u8>)
    requires
        attr_values@.len() == attributes@.len(),
        forall|a: int| 0 <= a < attr_values@.len() ==> (#[trigger] attr_values@[a])@.len() == 4,
        forall|a: int, v: int|
            0 <= a < attr_values@.len() && 0 <= v < 4 ==> (#[trigger] attr_values@[a]@[v])@.len()
                == attributes@[a].data_type.spec_byte_width(),
    ensures
        r@.len() == 4 * attr_widths_sum(attributes@, attributes@.len() as int),
        forall|v: int, a: int|
            0 <= v < 4 && 0 <= a < attributes@.len() ==> vertex_chunk_placed(
                r@,
                attributes@,
                attr_values@[a]@[v]@,
                0,
                v,
                a,
            ),
{
    let ghost attrs = attributes@;
    let ghost bpv = attr_widths_sum(attrs, attrs.len() as int);
    proof {
        lemma_attr_widths_sum_mono(attrs, 0, attrs.len() as int);
    }
    let mut r: Vec<u8> = Vec::new();
    let mut v: usize = 0;
    while v < 4
        invariant
            v <= 4,
            r@.len() == v * bpv,
            forall|v2: int, a2: int|
                0 <= v2 < v && 0 <= a2 < attrs.len() ==> vertex_chunk_placed(
                    r@,
                    attrs,
                    attr_values@[a2]@[v2]@,
                    0,
                    v2,
                    a2,
                ),
        decreases 4 - v,
    {
        let mut a: usize = 0;
        while a < attributes.len()
            invariant
                a <= attrs.len(),
                r@.len() == v * bpv + attr_widths_sum(attrs, a as int),
                forall|v2: int, a2: int|
                    0 <= v2 < v && 0 <= a2 < attrs.len() ==> vertex_chunk_placed(
                        r@,
                        attrs,
                        attr_values@[a2]@[v2]@,
                        0,
                        v2,
                        a2,
                    ),
                forall|a2: int|
                    0 <= a2 < a ==> vertex_chunk_placed(
                        r@,
                        attrs,
                        attr_values@[a2]@[v as int]@,
                        0,
                        v as int,
                        a2,
                    ),
            decreases attrs.len() - a,
        {
            let ghost r0 = r@;
            let chunk = &attr_values[a][v];
            r.extend_from_slice(chunk.as_slice());
            proof {
                lemma_extended_bytes(r0, r@, chunk@);
                lemma_attr_widths_sum_mono(attrs, 0, a as int);
                lemma_attr_widths_sum_mono(attrs, a + 1, attrs.len() as int);
                assert(attr_widths_sum(attrs, a + 1) == attr_widths_sum(attrs, a as int)
                    + attrs[a as int].data_type.spec_byte_width());
                // The fresh chunk sits at the end of the grown buffer.
                lemma_append_offsets_subrange(r0, chunk@, 0, chunk@.len() as int);
                assert(chunk@.subrange(0, chunk@.len() as int) =~= chunk@);
                assert(vertex_chunk_placed(r@, attrs, attr_values@[a as int]@[v as int]@, 0, v as int, a as int));
                // Everything placed before is untouched by the append.
                assert forall|v2: int, a2: int|
                    (0 <= v2 < v && 0 <= a2 < attrs.len()) || (v2 == v && 0 <= a2 < a) implies
                    vertex_chunk_placed(r@, attrs, attr_values@[a2]@[v2]@, 0, v2, a2) by {
                    let start2 = v2 * bpv + attr_widths_sum(attrs, a2);
                    let end2 = start2 + attrs[a2].data_type.spec_byte_width();
                    lemma_mul_nonnegative(v2, bpv);
                    lemma_attr_widths_sum_mono(attrs, 0, a2);
                    assert(attr_widths_sum(attrs, a2 + 1) == attr_widths_sum(attrs, a2)
                        + attrs[a2].data_type.spec_byte_width());
                    lemma_attr_widths_sum_mono(attrs, a2 + 1, attrs.len() as int);
                    if v2 < v {
                        lemma_mul_inequality(v2 + 1, v as int, bpv);
                        lemma_mul_is_distributive_add_other_way(bpv, v2, 1);
                        lemma_attr_widths_sum_mono(attrs, 0, a as int);
                        assert(end2 <= r0.len());
                    } else {
                        lemma_attr_widths_sum_mono(attrs, a2 + 1, a as int);
                        assert(end2 <= r0.len());
                    }
                    assert(vertex_chunk_placed(r0, attrs, attr_values@[a2]@[v2]@, 0, v2, a2));
                    lemma_append_keeps_subrange(r0, chunk@, start2, end2);
                }
            }
            a = a + 1;
        }
        proof {
            lemma_mul_is_distributive_add_other_way(bpv, v as int, 1);
        }
        v = v + 1;
    }
    r
}

/// Packs a whole batch: sprite `s`'s 4 packed vertex records start at
/// byte `s * 4 * bpv`, in batch order, exactly as one sub-data transfer
/// expects them. `sprite_values[s][a][v]` holds the bytes attribute `a`
/// computed for vertex `v` of sprite `s`.
#[verifier::loop_isolation(false)]
#[verifier::rlimit(50)]
pub fn pack_batch(sprite_values: &Vec<Vec<Vec<Vec<u8>>>>, attributes: &Vec<Attribute>) -> (r: Vec<
    u8,
>)
    requires
        forall|s: int|
            0 <= s < sprite_values@.len() ==> (#[trigger] sprite_values@[s])@.len()
                == attributes@.len(),
        forall|s: int, a: int|
            0 <= s < sprite_values@.len() && 0 <= a < attributes@.len() ==> (
            #[trigger] sprite_values@[s]@[a])@.len() == 4,
        forall|s: int, a: int, v: int|
            0 <= s < sprite_values@.len() && 0 <= a < attributes@.len() && 0 <= v < 4 ==> (
            #[trigger] sprite_values@[s]@[a]@[v])@.len()
                == attributes@[a].data_type.spec_byte_width(),
    ensures
        r@.len() == sprite_values@.len() * (4 * attr_widths_sum(
            attributes@,
            attributes@.len() as int,
        )),
        forall|s: int, v: int, a: int|
            0 <= s < sprite_values@.len() && 0 <= v < 4 && 0 <= a < attributes@.len()
                ==> vertex_chunk_placed(
                r@,
                attributes@,
                sprite_values@[s]@[a]@[v]@,
                s * (4 * attr_widths_sum(attributes@, attributes@.len() as int)),
                v,
                a,
            ),
{
    let ghost attrs = attributes@;
    let ghost bpv = attr_widths_sum(attrs, attrs.len() as int);
    proof {
        lemma_attr_widths_sum_mono(attrs, 0, attrs.len() as int);
    }
    let mut r: Vec<u8> = Vec::new();
    let mut s: usize = 0;
    while s < sprite_values.len()
        invariant
            s <= sprite_values@.len(),
            r@.len() == s * (4 * bpv),
            forall|s2: int, v2: int, a2: int|
                0 <= s2 < s && 0 <= v2 < 4 && 0 <= a2 < attrs.len() ==> vertex_chunk_placed(
                    r@,
                    attrs,
                    sprite_values@[s2]@[a2]@[v2]@,
                    s2 * (4 * bpv),
                    v2,
                    a2,
                ),
        decreases sprite_values@.len() - s,
    {
        let ghost r0 = r@;
        let mut buf = pack_sprite(&sprite_values[s], attributes);
        let ghost buf0 = buf@;
        r.append(&mut buf);
        proof {
            assert(r@ == r0 + buf0);
            assert forall|s2: int, v2: int, a2: int|
                0 <= s2 < s + 1 && 0 <= v2 < 4 && 0 <= a2 < attrs.len() implies vertex_chunk_placed(
                r@,
                attrs,
                sprite_values@[s2]@[a2]@[v2]@,
                s2 * (4 * bpv),
                v2,
                a2,
            ) by {
                let start2 = s2 * (4 * bpv) + v2 * bpv + attr_widths_sum(attrs, a2);
                let end2 = start2 + attrs[a2].data_type.spec_byte_width();
                lemma_mul_nonnegative(s2, 4 * bpv);
                lemma_mul_nonnegative(v2, bpv);
                lemma_attr_widths_sum_mono(attrs, 0, a2);
                assert(attr_widths_sum(attrs, a2 + 1) == attr_widths_sum(attrs, a2)
                    + attrs[a2].data_type.spec_byte_width());
                lemma_attr_widths_sum_mono(attrs, a2 + 1, attrs.len() as int);
                lemma_mul_is_distributive_add_other_way(bpv, v2, 1);
                lemma_mul_inequality(v2 + 1, 4, bpv);
                if s2 < s {
                    // An earlier sprite's chunk: untouched by the append.
                    lemma_mul_is_distributive_add_other_way(4 * bpv, s2, 1);
                    lemma_mul_inequality(s2 + 1, s as int, 4 * bpv);
                    assert(end2 <= r0.len());
                    assert(vertex_chunk_placed(r0, attrs, sprite_values@[s2]@[a2]@[v2]@, s2 * (4 * bpv), v2, a2));
                    lemma_append_keeps_subrange(r0, buf0, start2, end2);
                } else {
                    // The fresh sprite's chunk, shifted by the old length.
                    let x = v2 * bpv + attr_widths_sum(attrs, a2);
                    let w = attrs[a2].data_type.spec_byte_width();
                    assert(vertex_chunk_placed(buf0, attrs, sprite_values@[s2]@[a2]@[v2]@, 0, v2, a2));
                    assert(x + w <= 4 * bpv);
                    lemma_append_offsets_subrange(r0, buf0, x, x + w);
                    assert(r0.len() == s2 * (4 * bpv));
                }
            }
            lemma_mul_is_distributive_add_other_way(4 * bpv, s as int, 1);
        }
        s = s + 1;
    }
    r
}

} // verus!
