//! Word-exact layout of the GPU-visible buffers.
//!
//! Every buffer the renderer uploads is assembled here as a sequence of
//! 32-bit words whose placement is fully specified: the point-light record,
//! the movable-light uniform, the directional-light uniform with its view
//! projection, and the per-instance transform record. The caller turns the
//! words into bytes unchanged, so these contracts pin down exactly what the
//! shaders see at each offset.

use vstd::prelude::*;
use crate::lighting::{Vec3Words, WORD_ONE};

verus! {

/// A per-instance transform: the translation words and the nine words of the
/// rotation matrix (column-major), as produced from the instance's rotation
/// quaternion by the caller.
#[derive(Clone, Debug, PartialEq, Eq)]
pub struct InstanceTransform {
    pub position: Vec3Words,
    pub rotation: Vec<u32>,
}

impl InstanceTransform {
    /// The rotation holds exactly the nine matrix words.
    pub open spec fn wf(self) -> bool {
        self.rotation@.len() == 9
    }
}

/// Layout of one point-light record in the storage buffer: position, one
/// padding word, colour, range, the tangent-space position slot (zeroed at
/// rest), and one trailing padding word — 12 words.
pub open spec fn point_light_words(position: Vec3Words, color: Vec3Words, range: u32) -> Seq<
    u32,
> {
    seq![
        position.x,
        position.y,
        position.z,
        0u32,
        color.x,
        color.y,
        color.z,
        range,
        0u32,
        0u32,
        0u32,
        0u32,
    ]
}

/// Pack one point-light record.
pub fn pack_point_light(position: Vec3Words, color: Vec3Words, range: u32) -> (v: Vec<u32>)
    ensures
        v@ == point_light_words(position, color, range),
{
    let mut v: Vec<u32> = Vec::new();
    v.push(position.x);
    v.push(position.y);
    v.push(position.z);
    v.push(0u32);
    v.push(color.x);
    v.push(color.y);
    v.push(color.z);
    v.push(range);
    v.push(0u32);
    v.push(0u32);
    v.push(0u32);
    v.push(0u32);
    proof {
        assert(v@ =~= point_light_words(position, color, range));
    }
    v
}

/// Layout of the movable-light uniform: position, one padding word, colour,
/// range — 8 words.
pub open spec fn light_uniform_words(position: Vec3Words, color: Vec3Words, range: u32) -> Seq<
    u32,
> {
    seq![position.x, position.y, position.z, 0u32, color.x, color.y, color.z, range]
}

/// Pack the movable-light uniform.
pub fn pack_light_uniform(position: Vec3Words, color: Vec3Words, range: u32) -> (v: Vec<u32>)
    ensures
        v@ == light_uniform_words(position, color, range),
{
    let mut v: Vec<u32> = Vec::new();
    v.push(position.x);
    v.push(position.y);
    v.push(position.z);
    v.push(0u32);
    v.push(color.x);
    v.push(color.y);
    v.push(color.z);
    v.push(range);
    proof {
        assert(v@ =~= light_uniform_words(position, color, range));
    }
    v
}

/// Layout of the directional-light uniform: colour, a padding word filled
/// with one, direction, intensity, then the 16 words of the light
/// view-projection matrix — 24 words.
pub open spec fn directional_light_words(
    color: Vec3Words,
    direction: Vec3Words,
    intensity: u32,
    view_projection: Seq<u32>,
) -> Seq<u32> {
    seq![color.x, color.y, color.z, WORD_ONE, direction.x, direction.y, direction.z, intensity]
        + view_projection
}

/// Pack the directional-light uniform around a caller-evaluated light
/// view-projection matrix.
pub fn pack_directional_light_uniform(
    color: Vec3Words,
    direction: Vec3Words,
    intensity: u32,
    view_projection: &Vec<u32>,
) -> (v: Vec<u32>)
    requires
        view_projection@.len() == 16,
    ensures
        v@ == directional_light_words(color, direction, intensity, view_projection@),
        v@.len() == 24,
{
    let mut v: Vec<u32> = Vec::new();
    v.push(color.x);
    v.push(color.y);
    v.push(color.z);
    v.push(WORD_ONE);
    v.push(direction.x);
    v.push(direction.y);
    v.push(direction.z);
    v.push(intensity);
    let mut i: usize = 0;
    while i < view_projection.len()
        invariant
            view_projection@.len() == 16,
            i <= 16,
            v@.len() == 8 + i,
            v@.subrange(0, 8) == seq![
                color.x,
                color.y,
                color.z,
                WORD_ONE,
                direction.x,
                direction.y,
                direction.z,
                intensity,
            ],
            forall|j: int| 0 <= j < i ==> v@[8 + j] == view_projection@[j],
        decreases 16 - i,
    {
        proof {
            assert(v@.push(view_projection@[i as int]).subrange(0, 8) =~= v@.subrange(0, 8));
        }
        let w = view_projection[i];
        v.push(w);
        i = i + 1;
    }
    proof {
        assert(v@ =~= directional_light_words(color, direction, intensity, view_projection@));
    }
    v
}

/// Layout of the camera uniform: the homogeneous view position (4 words)
/// followed by the 16 words of the view-projection matrix — 20 words.
pub open spec fn camera_uniform_words(view_position: Seq<u32>, view_proj: Seq<u32>) -> Seq<u32> {
    view_position + view_proj
}

/// Pack the camera uniform from the caller-evaluated view position and
/// view-projection matrix.
pub fn pack_camera_uniform(view_position: &Vec<u32>, view_proj: &Vec<u32>) -> (v: Vec<u32>)
    requires
        view_position@.len() == 4,
        view_proj@.len() == 16,
    ensures
        v@ == camera_uniform_words(view_position@, view_proj@),
        v@.len() == 20,
{
    let mut v: Vec<u32> = Vec::new();
    let mut i: usize = 0;
    while i < view_position.len()
        invariant
            view_position@.len() == 4,
            i <= 4,
            v@ == view_position@.subrange(0, i as int),
        decreases 4 - i,
    {
        let w = view_position[i];
        v.push(w);
        proof {
            assert(view_position@.subrange(0, i + 1 as int) =~= view_position@.subrange(
                0,
                i as int,
            ).push(w));
        }
        i = i + 1;
    }
    proof {
        assert(view_position@.subrange(0, 4) =~= view_position@);
    }
    let mut j: usize = 0;
    while j < view_proj.len()
        invariant
            view_position@.len() == 4,
            view_proj@.len() == 16,
            j <= 16,
            v@ == view_position@ + view_proj@.subrange(0, j as int),
        decreases 16 - j,
    {
        let w = view_proj[j];
        v.push(w);
        proof {
            assert(view_position@ + view_proj@.subrange(0, j + 1 as int) =~= (view_position@
                + view_proj@.subrange(0, j as int)).push(w));
        }
        j = j + 1;
    }
    proof {
        assert(view_proj@.subrange(0, 16) =~= view_proj@);
        assert(v@ =~= camera_uniform_words(view_position@, view_proj@));
    }
    v
}

/// Layout of one instance record, 26 words: the model matrix in column-major
/// order — three rotation columns each closed with a zero w-word, then the
/// translation column closed with a one — followed by the nine words of the
/// normal matrix and a trailing padding word.
///
/// The translation column sits at words 12..15, so the position words survive
/// packing verbatim whatever the rotation is.
pub open spec fn instance_raw_words(position: Vec3Words, rotation: Seq<u32>) -> Seq<u32> {
    seq![
        rotation[0],
        rotation[1],
        rotation[2],
        0u32,
        rotation[3],
        rotation[4],
        rotation[5],
        0u32,
        rotation[6],
        rotation[7],
        rotation[8],
        0u32,
        position.x,
        position.y,
        position.z,
        WORD_ONE,
    ] + rotation + seq![0u32]
}

/// The translation words of a packed instance record.
pub open spec fn instance_translation_of(words: Seq<u32>) -> Vec3Words {
    Vec3Words { x: words[12], y: words[13], z: words[14] }
}

/// Round trip of the instance layout: packing a position with any rotation
/// and reading the translation column back yields the position unchanged.
pub proof fn lemma_instance_translation_round_trip(position: Vec3Words, rotation: Seq<u32>)
    requires
        rotation.len() == 9,
    ensures
        instance_translation_of(instance_raw_words(position, rotation)) == position,
{
}

/// Pack one instance record.
pub fn pack_instance_raw(position: Vec3Words, rotation: &Vec<u32>) -> (v: Vec<u32>)
    requires
        rotation@.len() == 9,
    ensures
        v@ == instance_raw_words(position, rotation@),
        v@.len() == 26,
{
    let mut v: Vec<u32> = Vec::new();
    v.push(rotation[0]);
    v.push(rotation[1]);
    v.push(rotation[2]);
    v.push(0u32);
    v.push(rotation[3]);
    v.push(rotation[4]);
    v.push(rotation[5]);
    v.push(0u32);
    v.push(rotation[6]);
    v.push(rotation[7]);
    v.push(rotation[8]);
    v.push(0u32);
    v.push(position.x);
    v.push(position.y);
    v.push(position.z);
    v.push(WORD_ONE);
    v.push(rotation[0]);
    v.push(rotation[1]);
    v.push(rotation[2]);
    v.push(rotation[3]);
    v.push(rotation[4]);
    v.push(rotation[5]);
    v.push(rotation[6]);
    v.push(rotation[7]);
    v.push(rotation[8]);
    v.push(0u32);
    proof {
        assert(v@ =~= instance_raw_words(position, rotation@));
    }
    v
}

/// Read the translation column back out of a packed instance record.
pub fn instance_translation(words: &Vec<u32>) -> (p: Vec3Words)
    requires
        words@.len() == 26,
    ensures
        p == instance_translation_of(words@),
{
    Vec3Words { x: words[12], y: words[13], z: words[14] }
}

/// The instance buffer for a whole model: the packed records of all its
/// instance transforms, in order, 26 words each.
pub open spec fn instance_buffer_words(transforms: Seq<InstanceTransform>) -> Seq<u32>
    decreases transforms.len(),
{
    if transforms.len() == 0 {
        Seq::empty()
    } else {
        instance_buffer_words(transforms.drop_last()) + instance_raw_words(
            transforms.last().position,
            transforms.last().rotation@,
        )
    }
}

/// The instance buffer of `n` records holds exactly `26 * n` words.
pub proof fn lemma_instance_buffer_len(transforms: Seq<InstanceTransform>)
    requires
        forall|k: int| 0 <= k < transforms.len() ==> #[trigger] transforms[k].wf(),
    ensures
        instance_buffer_words(transforms).len() == 26 * transforms.len(),
    decreases transforms.len(),
{
    if transforms.len() > 0 {
        let prefix = transforms.drop_last();
        assert(forall|k: int| 0 <= k < prefix.len() ==> #[trigger] prefix[k].wf()) by {
            assert(forall|k: int|
                0 <= k < prefix.len() ==> #[trigger] prefix[k] == transforms[k]);
        }
        lemma_instance_buffer_len(prefix);
        assert(transforms[transforms.len() - 1].wf());
    }
}

/// Each packed record occupies its own 26-word block of the buffer.
pub proof fn lemma_instance_buffer_blocks(transforms: Seq<InstanceTransform>, i: int)
    requires
        forall|k: int| 0 <= k < transforms.len() ==> #[trigger] transforms[k].wf(),
        0 <= i < transforms.len(),
    ensures
        instance_buffer_words(transforms).subrange(26 * i, 26 * i + 26) == instance_raw_words(
            transforms[i].position,
            transforms[i].rotation@,
        ),
    decreases transforms.len(),
{
    let n = transforms.len() as int;
    let prefix = transforms.drop_last();
    assert(forall|k: int| 0 <= k < prefix.len() ==> #[trigger] prefix[k].wf()) by {
        assert(forall|k: int| 0 <= k < prefix.len() ==> #[trigger] prefix[k] == transforms[k]);
    }
    lemma_instance_buffer_len(prefix);
    lemma_instance_buffer_len(transforms);
    assert(transforms[i].wf());
    if i + 1 < n {
        lemma_instance_buffer_blocks(prefix, i);
        assert(instance_buffer_words(transforms).subrange(26 * i, 26 * i + 26)
            =~= instance_buffer_words(prefix).subrange(26 * i, 26 * i + 26));
    } else {
        assert(instance_buffer_words(transforms).subrange(26 * i, 26 * i + 26)
            =~= instance_raw_words(transforms[i].position, transforms[i].rotation@));
    }
}

/// Pack the instance buffer of a model.
pub fn pack_instance_buffer(transforms: &Vec<InstanceTransform>) -> (v: Vec<u32>)
    requires
        forall|k: int| 0 <= k < transforms@.len() ==> #[trigger] transforms@[k].wf(),
    ensures
        v@ == instance_buffer_words(transforms@),
{
    let mut v: Vec<u32> = Vec::new();
    let mut i: usize = 0;
    while i < transforms.len()
        invariant
            forall|k: int| 0 <= k < transforms@.len() ==> #[trigger] transforms@[k].wf(),
            i <= transforms@.len(),
            v@ == instance_buffer_words(transforms@.subrange(0, i as int)),
        decreases transforms@.len() - i,
    {
        let t = &transforms[i];
        proof {
            assert(transforms@[i as int].wf());
        }
        let mut record = pack_instance_raw(t.position, &t.rotation);
        v.append(&mut record);
        proof {
            let upto = transforms@.subrange(0, i + 1 as int);
            assert(upto.drop_last() =~= transforms@.subrange(0, i as int));
            assert(upto.last() == transforms@[i as int]);
        }
        i = i + 1;
    }
    proof {
        assert(transforms@.subrange(0, transforms@.len() as int) =~= transforms@);
    }
    v
}

} // verus!
