use vstd::prelude::*;

verus! {

/// A piece of terrain: its height samples and one blend mask per terrain layer.
#[derive(Clone, Debug)]
pub struct Chunk<R> {
    /// Height samples, row by row.
    pub heightmap: Vec<R>,
    /// One mask (one byte per pixel) for each layer of the terrain, in layer order.
    pub layer_masks: Vec<Vec<u8>>,
}

/// The mathematical content of a [`Chunk`].
pub struct ChunkView<R> {
    pub heightmap: Seq<R>,
    pub layer_masks: Seq<Seq<u8>>,
}

impl<R> View for Chunk<R> {
    type V = ChunkView<R>;

    open spec fn view(&self) -> ChunkView<R> {
        ChunkView {
            heightmap: self.heightmap@,
            layer_masks: self.layer_masks@.map_values(|m: Vec<u8>| m@),
        }
    }
}

/// A terrain: an ordered list of layers, and chunks that each hold a mask per layer.
#[derive(Clone, Debug)]
pub struct Terrain<R, L> {
    /// The layers, bottom first.
    pub layers: Vec<L>,
    /// The chunks.
    pub chunks: Vec<Chunk<R>>,
    /// Size in bytes of the mask that a new layer gets in a chunk when none is given.
    pub mask_size: usize,
}

/// The mathematical content of a [`Terrain`].
pub struct TerrainView<R, L> {
    pub layers: Seq<L>,
    pub chunks: Seq<ChunkView<R>>,
    pub mask_size: nat,
}

impl<R, L> View for Terrain<R, L> {
    type V = TerrainView<R, L>;

    open spec fn view(&self) -> TerrainView<R, L> {
        TerrainView {
            layers: self.layers@,
            chunks: self.chunks@.map_values(|c: Chunk<R>| c@),
            mask_size: self.mask_size as nat,
        }
    }
}

/// A mask of `size` bytes, all zero.
pub open spec fn blank_mask(size: nat) -> Seq<u8> {
    Seq::new(size, |k: int| 0u8)
}

/// The mask that chunk `i` receives for a new layer: the given one, or a blank one.
pub open spec fn mask_for(masks: Seq<Seq<u8>>, i: int, size: nat) -> Seq<u8> {
    if i < masks.len() {
        masks[i]
    } else {
        blank_mask(size)
    }
}

impl<R, L> TerrainView<R, L> {
    /// Every chunk holds exactly one mask per layer.
    pub open spec fn well_formed(self) -> bool {
        forall|i: int|
            0 <= i < self.chunks.len() ==> (#[trigger] self.chunks[i]).layer_masks.len()
                == self.layers.len()
    }

    /// The terrain with `layer` inserted at `index`, chunk `i` receiving
    /// `mask_for(masks, i, ..)` as its mask for it.
    pub open spec fn with_layer(self, layer: L, masks: Seq<Seq<u8>>, index: int) -> Self {
        TerrainView {
            layers: self.layers.insert(index, layer),
            chunks: Seq::new(
                self.chunks.len(),
                |i: int|
                    ChunkView {
                        heightmap: self.chunks[i].heightmap,
                        layer_masks: self.chunks[i].layer_masks.insert(
                            index,
                            mask_for(masks, i, self.mask_size),
                        ),
                    },
            ),
            mask_size: self.mask_size,
        }
    }

    /// The terrain with the layer at `index` and its masks taken out.
    pub open spec fn without_layer(self, index: int) -> Self {
        TerrainView {
            layers: self.layers.remove(index),
            chunks: Seq::new(
                self.chunks.len(),
                |i: int|
                    ChunkView {
                        heightmap: self.chunks[i].heightmap,
                        layer_masks: self.chunks[i].layer_masks.remove(index),
                    },
            ),
            mask_size: self.mask_size,
        }
    }

    /// The masks of the layer at `index`, one per chunk.
    pub open spec fn masks_of_layer(self, index: int) -> Seq<Seq<u8>> {
        Seq::new(self.chunks.len(), |i: int| self.chunks[i].layer_masks[index])
    }
}

/// A zeroed mask of `size` bytes.
fn blank_mask_vec(size: usize) -> (r: Vec<u8>)
    ensures
        r@ == blank_mask(size as nat),
{
    let mut r: Vec<u8> = Vec::new();
    let mut k: usize = 0;
    while k < size
        invariant
            0 <= k <= size,
            r@ == blank_mask(k as nat),
        decreases size - k,
    {
        r.push(0u8);
        k = k + 1;
        assert(r@ =~= blank_mask(k as nat));
    }
    r
}

impl<R, L> Terrain<R, L> {
    /// Inserts `layer` at `index`. Chunk `i` gets `masks[i]` as its mask for the new
    /// layer, or a blank mask of `mask_size` bytes where `masks` has no entry `i`.
    pub fn insert_layer(&mut self, layer: L, masks: Vec<Vec<u8>>, index: usize)
        requires
            old(self)@.well_formed(),
            index <= old(self).layers@.len(),
        ensures
            final(self)@.well_formed(),
            final(self)@ =~~= old(self)@.with_layer(layer, masks@.map_values(|m: Vec<u8>| m@), index as int),
    {
        let ghost start = self@;
        let ghost given = masks@.map_values(|m: Vec<u8>| m@);
        let mut masks = masks;
        self.layers.insert(index, layer);
        let mut i: usize = 0;
        while i < self.chunks.len()
            invariant
                0 <= i <= self.chunks@.len(),
                self.chunks@.len() == start.chunks.len(),
                self.layers@ == start.layers.insert(index as int, layer),
                self.mask_size == start.mask_size,
                index <= start.layers.len(),
                start.well_formed(),
                masks@.len() == given.len(),
                forall|k: int| i <= k < masks@.len() ==> #[trigger] masks@[k]@ == given[k],
                forall|k: int| i <= k < self.chunks@.len() ==> #[trigger] self.chunks@[k]@ == start.chunks[k],
                forall|k: int|
                    0 <= k < i ==> (#[trigger] self.chunks@[k])@ =~~= (ChunkView {
                        heightmap: start.chunks[k].heightmap,
                        layer_masks: start.chunks[k].layer_masks.insert(
                            index as int,
                            mask_for(given, k, start.mask_size),
                        ),
                    }),
            decreases start.chunks.len() - i,
        {
            let mut mask: Vec<u8> = Vec::new();
            if i < masks.len() {
                std::mem::swap(&mut masks[i], &mut mask);
            } else {
                mask = blank_mask_vec(self.mask_size);
            }
            let ghost before = self.chunks@[i as int];
            assert(before@ == start.chunks[i as int]);
            self.chunks[i].layer_masks.insert(index, mask);
            assert(self.chunks@[i as int].layer_masks@.map_values(|m: Vec<u8>| m@) =~= before.layer_masks@.map_values(
                |m: Vec<u8>| m@,
            ).insert(index as int, mask@));
            i = i + 1;
        }
        assert(self@.chunks =~~= start.with_layer(layer, given, index as int).chunks);
    }
}

impl<R, L> Terrain<R, L> {
    /// Appends `layer` on top of the others (see [`Terrain::insert_layer`]).
    pub fn add_layer(&mut self, layer: L, masks: Vec<Vec<u8>>)
        requires
            old(self)@.well_formed(),
        ensures
            final(self)@.well_formed(),
            final(self)@ =~~= old(self)@.with_layer(
                layer,
                masks@.map_values(|m: Vec<u8>| m@),
                old(self).layers@.len() as int,
            ),
    {
        let index = self.layers.len();
        self.insert_layer(layer, masks, index);
    }

    /// Takes out the layer at `index` and its masks, one per chunk.
    pub fn remove_layer(&mut self, index: usize) -> (r: (L, Vec<Vec<u8>>))
        requires
            old(self)@.well_formed(),
            index < old(self).layers@.len(),
        ensures
            final(self)@.well_formed(),
            final(self)@ =~~= old(self)@.without_layer(index as int),
            r.0 == old(self).layers@[index as int],
            r.1@.map_values(|m: Vec<u8>| m@) =~~= old(self)@.masks_of_layer(index as int),
    {
        let ghost start = self@;
        let layer = self.layers.remove(index);
        let mut masks: Vec<Vec<u8>> = Vec::new();
        let mut i: usize = 0;
        while i < self.chunks.len()
            invariant
                0 <= i <= self.chunks@.len(),
                self.chunks@.len() == start.chunks.len(),
                self.layers@ == start.layers.remove(index as int),
                self.mask_size == start.mask_size,
                index < start.layers.len(),
                start.well_formed(),
                masks@.len() == i,
                forall|k: int| 0 <= k < i ==> #[trigger] masks@[k]@ == start.chunks[k].layer_masks[index as int],
                forall|k: int| i <= k < self.chunks@.len() ==> #[trigger] self.chunks@[k]@ == start.chunks[k],
                forall|k: int|
                    0 <= k < i ==> (#[trigger] self.chunks@[k])@ =~~= (ChunkView {
                        heightmap: start.chunks[k].heightmap,
                        layer_masks: start.chunks[k].layer_masks.remove(index as int),
                    }),
            decreases start.chunks.len() - i,
        {
            let ghost before = self.chunks@[i as int];
            assert(before@ == start.chunks[i as int]);
            let mask = self.chunks[i].layer_masks.remove(index);
            assert(self.chunks@[i as int].layer_masks@.map_values(|m: Vec<u8>| m@) =~= before.layer_masks@.map_values(
                |m: Vec<u8>| m@,
            ).remove(index as int));
            masks.push(mask);
            i = i + 1;
        }
        assert(self@.chunks =~~= start.without_layer(index as int).chunks);
        assert(masks@.map_values(|m: Vec<u8>| m@) =~~= start.masks_of_layer(index as int));
        (layer, masks)
    }

    /// Takes out the top layer and its masks; `None` when there are no layers.
    pub fn pop_layer(&mut self) -> (r: Option<(L, Vec<Vec<u8>>)>)
        requires
            old(self)@.well_formed(),
        ensures
            final(self)@.well_formed(),
            old(self).layers@.len() == 0 <==> r is None,
            old(self).layers@.len() == 0 ==> final(self)@ == old(self)@,
            r matches Some(p) ==> {
                let top = old(self).layers@.len() - 1;
                &&& final(self)@ =~~= old(self)@.without_layer(top)
                &&& p.0 == old(self).layers@[top]
                &&& p.1@.map_values(|m: Vec<u8>| m@) =~~= old(self)@.masks_of_layer(top)
            },
    {
        if self.layers.len() == 0 {
            None
        } else {
            let top = self.layers.len() - 1;
            Some(self.remove_layer(top))
        }
    }
}

/// Adding a layer on top, deleting that top layer, and then undoing the two in reverse
/// order (re-inserting what was deleted, then removing the top layer) gives back the
/// layers and masks the terrain had; each undo restores exactly the state before its
/// step.
pub proof fn lemma_add_delete_undo_round_trip<R, L>(t: TerrainView<R, L>, layer: L, masks: Seq<Seq<u8>>)
    requires
        t.well_formed(),
    ensures
        ({
            let top = t.layers.len() as int;
            let added = t.with_layer(layer, masks, top);
            let deleted = added.without_layer(top);
            let restored = deleted.with_layer(added.layers[top], added.masks_of_layer(top), top);
            let undone = restored.without_layer(restored.layers.len() - 1);
            &&& added.layers[top] == layer
            &&& deleted == t
            &&& restored == added
            &&& undone == t
        }),
{
    let top = t.layers.len() as int;
    let added = t.with_layer(layer, masks, top);
    let deleted = added.without_layer(top);
    assert(added.layers[top] == layer);
    assert(deleted.layers =~= t.layers);
    assert forall|i: int| 0 <= i < t.chunks.len() implies #[trigger] deleted.chunks[i] == t.chunks[i] by {
        assert(deleted.chunks[i].layer_masks =~= t.chunks[i].layer_masks);
    }
    assert(deleted.chunks =~= t.chunks);
    assert(deleted == t);
    let restored = deleted.with_layer(added.layers[top], added.masks_of_layer(top), top);
    assert(restored.layers =~= added.layers);
    assert forall|i: int| 0 <= i < t.chunks.len() implies #[trigger] restored.chunks[i] == added.chunks[i] by {
        assert(restored.chunks[i].layer_masks =~= added.chunks[i].layer_masks);
    }
    assert(restored.chunks =~= added.chunks);
    assert(restored == added);
}

/// Undoable command that adds a layer on top of a terrain's layers.
#[derive(Debug)]
pub struct AddTerrainLayerCommand<L> {
    /// The layer while the command is not applied.
    pub layer: Option<L>,
    /// The layer's masks while the command is not applied; empty before the first
    /// execution, when the terrain makes blank ones.
    pub masks: Vec<Vec<u8>>,
}

impl<L> AddTerrainLayerCommand<L> {
    /// A command that will add `layer`.
    pub fn new(layer: L) -> (r: Self)
        ensures
            r.layer == Some(layer),
            r.masks@.len() == 0,
    {
        AddTerrainLayerCommand { layer: Some(layer), masks: Vec::new() }
    }

    /// The name shown in the undo history.
    pub fn name(&self) -> (r: String)
        ensures
            r@ == "Add Terrain Layer"@,
    {
        String::from_str("Add Terrain Layer")
    }

    /// Adds the held layer and masks on top of the terrain's layers; they pass to the
    /// terrain.
    pub fn execute<R>(&mut self, terrain: &mut Terrain<R, L>)
        requires
            old(self).layer is Some,
            old(terrain)@.well_formed(),
        ensures
            final(terrain)@.well_formed(),
            final(terrain)@ =~~= old(terrain)@.with_layer(
                old(self).layer->Some_0,
                old(self).masks@.map_values(|m: Vec<u8>| m@),
                old(terrain).layers@.len() as int,
            ),
            final(self).layer is None,
            final(self).masks@.len() == 0,
    {
        let layer = self.layer.take().unwrap();
        let mut masks: Vec<Vec<u8>> = Vec::new();
        std::mem::swap(&mut masks, &mut self.masks);
        terrain.add_layer(layer, masks);
    }

    /// Takes the top layer and its masks back from the terrain.
    pub fn revert<R>(&mut self, terrain: &mut Terrain<R, L>)
        requires
            old(terrain)@.well_formed(),
            old(terrain).layers@.len() > 0,
        ensures
            final(terrain)@.well_formed(),
            final(terrain)@ =~~= old(terrain)@.without_layer(old(terrain).layers@.len() - 1),
            final(self).layer == Some(old(terrain).layers@[old(terrain).layers@.len() - 1]),
            final(self).masks@.map_values(|m: Vec<u8>| m@) =~~= old(terrain)@.masks_of_layer(
                old(terrain).layers@.len() - 1,
            ),
    {
        let top = terrain.layers.len() - 1;
        let (layer, masks) = terrain.remove_layer(top);
        self.layer = Some(layer);
        self.masks = masks;
    }
}

/// Undoable command that deletes the layer at a fixed index.
#[derive(Debug)]
pub struct DeleteTerrainLayerCommand<L> {
    /// The deleted layer while the command is applied.
    pub layer: Option<L>,
    /// Index of the layer to delete.
    pub index: usize,
    /// The deleted layer's masks while the command is applied.
    pub masks: Vec<Vec<u8>>,
}

impl<L> DeleteTerrainLayerCommand<L> {
    /// A command that will delete the layer at `index`.
    pub fn new(index: usize) -> (r: Self)
        ensures
            r.layer is None,
            r.index == index,
            r.masks@.len() == 0,
    {
        DeleteTerrainLayerCommand { layer: None, index, masks: Vec::new() }
    }

    /// The name shown in the undo history.
    pub fn name(&self) -> (r: String)
        ensures
            r@ == "Delete Terrain Layer"@,
    {
        String::from_str("Delete Terrain Layer")
    }

    /// Takes the layer at the command's index and its masks out of the terrain.
    pub fn execute<R>(&mut self, terrain: &mut Terrain<R, L>)
        requires
            old(terrain)@.well_formed(),
            old(self).index < old(terrain).layers@.len(),
        ensures
            final(terrain)@.well_formed(),
            final(terrain)@ =~~= old(terrain)@.without_layer(old(self).index as int),
            final(self).index == old(self).index,
            final(self).layer == Some(old(terrain).layers@[old(self).index as int]),
            final(self).masks@.map_values(|m: Vec<u8>| m@) =~~= old(terrain)@.masks_of_layer(
                old(self).index as int,
            ),
    {
        let (layer, masks) = terrain.remove_layer(self.index);
        self.layer = Some(layer);
        self.masks = masks;
    }

    /// Puts the deleted layer and its masks back at the command's index.
    pub fn revert<R>(&mut self, terrain: &mut Terrain<R, L>)
        requires
            old(terrain)@.well_formed(),
            old(self).layer is Some,
            old(self).index <= old(terrain).layers@.len(),
        ensures
            final(terrain)@.well_formed(),
            final(terrain)@ =~~= old(terrain)@.with_layer(
                old(self).layer->Some_0,
                old(self).masks@.map_values(|m: Vec<u8>| m@),
                old(self).index as int,
            ),
            final(self).index == old(self).index,
            final(self).layer is None,
            final(self).masks@.len() == 0,
    {
        let layer = self.layer.take().unwrap();
        let mut masks: Vec<Vec<u8>> = Vec::new();
        std::mem::swap(&mut masks, &mut self.masks);
        terrain.insert_layer(layer, masks, self.index);
    }
}

/// The height samples of each chunk.
pub open spec fn heightmaps_of<R>(chunks: Seq<ChunkView<R>>) -> Seq<Seq<R>> {
    Seq::new(chunks.len(), |i: int| chunks[i].heightmap)
}

/// Snapshots of the heights of all chunks: the live heights, and the two buffers of an
/// edit.
pub struct HeightSnapshots<R> {
    pub live: Seq<Seq<R>>,
    pub old: Seq<Seq<R>>,
    pub new: Seq<Seq<R>>,
}

/// One height swap: the chunks get the `new` buffers, then `old` and `new` trade
/// places.
pub open spec fn height_swap<R>(s: HeightSnapshots<R>) -> HeightSnapshots<R> {
    HeightSnapshots { live: s.new, old: s.new, new: s.old }
}

/// Swapping twice puts both buffers back and leaves the live heights at the `old`
/// buffers; so from a state whose live heights are the `old` buffers (right after an
/// edit is recorded, or after an undo), execute and undo alternate between the two
/// states forever.
pub proof fn lemma_height_swap_round_trip<R>(s: HeightSnapshots<R>)
    ensures
        height_swap(height_swap(s)) == (HeightSnapshots { live: s.old, old: s.old, new: s.new }),
        s.live == s.old ==> height_swap(height_swap(s)) == s,
{
}

/// A copy of `v`.
pub(crate) fn copy_vec<R: Copy>(v: &Vec<R>) -> (r: Vec<R>)
    ensures
        r@ == v@,
{
    let mut r: Vec<R> = Vec::new();
    let mut k: usize = 0;
    while k < v.len()
        invariant
            0 <= k <= v@.len(),
            r@ == v@.subrange(0, k as int),
        decreases v@.len() - k,
    {
        r.push(v[k]);
        k = k + 1;
        assert(r@ =~= v@.subrange(0, k as int));
    }
    assert(v@.subrange(0, v@.len() as int) =~= v@);
    r
}

/// Undoable command that replaces the heights of a terrain's chunks.
#[derive(Debug)]
pub struct ModifyTerrainHeightCommand<R> {
    /// Heights to go back to, one buffer per chunk; the next swap replaces them with the
    /// heights it installs.
    pub old_heightmaps: Vec<Vec<R>>,
    /// Heights the next swap installs, one buffer per chunk.
    pub new_heightmaps: Vec<Vec<R>>,
}

impl<R: Copy> ModifyTerrainHeightCommand<R> {
    /// A command that sets the heights to `new_heightmaps` and can restore
    /// `old_heightmaps`.
    pub fn new(old_heightmaps: Vec<Vec<R>>, new_heightmaps: Vec<Vec<R>>) -> (r: Self)
        ensures
            r.old_heightmaps == old_heightmaps,
            r.new_heightmaps == new_heightmaps,
    {
        ModifyTerrainHeightCommand { old_heightmaps, new_heightmaps }
    }

    /// The buffers and the terrain's heights as snapshots.
    pub open spec fn snapshots<L>(&self, terrain: TerrainView<R, L>) -> HeightSnapshots<R> {
        HeightSnapshots {
            live: heightmaps_of(terrain.chunks),
            old: self.old_heightmaps@.map_values(|h: Vec<R>| h@),
            new: self.new_heightmaps@.map_values(|h: Vec<R>| h@),
        }
    }

    /// `after` and `terrain_after` are the result of one swap on `before` and
    /// `terrain_before`: the heights follow [`height_swap`], all else stays.
    pub open spec fn swapped<L>(
        before: Self,
        terrain_before: Terrain<R, L>,
        after: Self,
        terrain_after: Terrain<R, L>,
    ) -> bool {
        &&& after.snapshots(terrain_after@) == height_swap(before.snapshots(terrain_before@))
        &&& terrain_after.layers == terrain_before.layers
        &&& terrain_after.mask_size == terrain_before.mask_size
        &&& terrain_after.chunks@.len() == terrain_before.chunks@.len()
        &&& forall|i: int|
            0 <= i < terrain_before.chunks@.len() ==> (#[trigger] terrain_after.chunks@[i]).layer_masks
                == terrain_before.chunks@[i].layer_masks
    }

    /// The name shown in the undo history.
    pub fn name(&self) -> (r: String)
        ensures
            r@ == "Modify Terrain Height"@,
    {
        String::from_str("Modify Terrain Height")
    }

    /// Gives each chunk the heights of the `new` buffer, then trades the two buffers, so
    /// that the next swap undoes this one.
    pub fn swap<L>(&mut self, terrain: &mut Terrain<R, L>)
        requires
            old(self).old_heightmaps@.len() == old(terrain).chunks@.len(),
            old(self).new_heightmaps@.len() == old(terrain).chunks@.len(),
        ensures
            Self::swapped(*old(self), *old(terrain), *final(self), *final(terrain)),
    {
        let ghost s0 = self.snapshots(terrain@);
        let ghost chunks0 = terrain.chunks@;
        let ghost terrain0 = *terrain;
        let ghost target = height_swap(s0);
        let mut i: usize = 0;
        while i < terrain.chunks.len()
            invariant
                0 <= i <= terrain.chunks@.len(),
                target == height_swap(s0),
                terrain.chunks@.len() == chunks0.len(),
                terrain.layers == terrain0.layers,
                terrain.mask_size == terrain0.mask_size,
                s0.live == heightmaps_of(chunks0.map_values(|c: Chunk<R>| c@)),
                self.old_heightmaps@.len() == chunks0.len(),
                self.new_heightmaps@.len() == chunks0.len(),
                s0.old.len() == chunks0.len(),
                s0.new.len() == chunks0.len(),
                forall|k: int|
                    0 <= k < terrain.chunks@.len() ==> (#[trigger] terrain.chunks@[k]).layer_masks
                        == chunks0[k].layer_masks,
                forall|k: int| 0 <= k < i ==> #[trigger] terrain.chunks@[k].heightmap@ == target.live[k],
                forall|k: int| i <= k < chunks0.len() ==> #[trigger] terrain.chunks@[k].heightmap@ == chunks0[k].heightmap@,
                forall|k: int| 0 <= k < i ==> #[trigger] self.old_heightmaps@[k]@ == target.old[k],
                forall|k: int| i <= k < s0.old.len() ==> #[trigger] self.old_heightmaps@[k]@ == s0.old[k],
                forall|k: int| 0 <= k < i ==> #[trigger] self.new_heightmaps@[k]@ == target.new[k],
                forall|k: int| i <= k < s0.new.len() ==> #[trigger] self.new_heightmaps@[k]@ == s0.new[k],
            decreases chunks0.len() - i,
        {
            let fresh = copy_vec(&self.new_heightmaps[i]);
            terrain.chunks[i].heightmap = fresh;
            std::mem::swap(&mut self.old_heightmaps[i], &mut self.new_heightmaps[i]);
            i = i + 1;
        }
        assert(self.snapshots(terrain@).live =~= target.live);
        assert(self.snapshots(terrain@).old =~= target.old);
        assert(self.snapshots(terrain@).new =~= target.new);
    }

    /// Applies the edit (see [`ModifyTerrainHeightCommand::swap`]).
    pub fn execute<L>(&mut self, terrain: &mut Terrain<R, L>)
        requires
            old(self).old_heightmaps@.len() == old(terrain).chunks@.len(),
            old(self).new_heightmaps@.len() == old(terrain).chunks@.len(),
        ensures
            Self::swapped(*old(self), *old(terrain), *final(self), *final(terrain)),
    {
        self.swap(terrain);
    }

    /// Undoes the edit (see [`ModifyTerrainHeightCommand::swap`]).
    pub fn revert<L>(&mut self, terrain: &mut Terrain<R, L>)
        requires
            old(self).old_heightmaps@.len() == old(terrain).chunks@.len(),
            old(self).new_heightmaps@.len() == old(terrain).chunks@.len(),
        ensures
            Self::swapped(*old(self), *old(terrain), *final(self), *final(terrain)),
    {
        self.swap(terrain);
    }
}

/// `mask` with its first pixels overwritten by those of `pixels`, as far as both reach.
pub open spec fn overwritten(mask: Seq<u8>, pixels: Seq<u8>) -> Seq<u8> {
    Seq::new(mask.len(), |k: int| if k < pixels.len() { pixels[k] } else { mask[k] })
}

/// Overwrites the first pixels of `mask` with those of `pixels`, in place.
fn overwrite_pixels(mask: &mut Vec<u8>, pixels: &Vec<u8>)
    ensures
        final(mask)@ == overwritten(old(mask)@, pixels@),
{
    let ghost start = mask@;
    let mut k: usize = 0;
    while k < mask.len() && k < pixels.len()
        invariant
            mask@.len() == start.len(),
            0 <= k <= start.len(),
            forall|j: int|
                0 <= j < start.len() ==> #[trigger] mask@[j] == if j < k && j < pixels@.len() {
                    pixels@[j]
                } else {
                    start[j]
                },
        decreases start.len() - k,
    {
        mask[k] = pixels[k];
        k = k + 1;
    }
    assert(mask@ =~= overwritten(start, pixels@));
}

/// Undoable command that replaces the mask of one layer in every chunk.
#[derive(Debug)]
pub struct ModifyTerrainLayerMaskCommand {
    /// Mask pixels to go back to, one buffer per chunk; the next swap replaces them with
    /// the pixels it writes.
    pub old_masks: Vec<Vec<u8>>,
    /// Mask pixels the next swap writes, one buffer per chunk.
    pub new_masks: Vec<Vec<u8>>,
    /// Index of the layer whose masks are edited.
    pub layer: usize,
}

impl ModifyTerrainLayerMaskCommand {
    /// A command that sets the masks of `layer` to `new_masks` and can restore
    /// `old_masks`.
    pub fn new(old_masks: Vec<Vec<u8>>, new_masks: Vec<Vec<u8>>, layer: usize) -> (r: Self)
        ensures
            r.old_masks == old_masks,
            r.new_masks == new_masks,
            r.layer == layer,
    {
        ModifyTerrainLayerMaskCommand { old_masks, new_masks, layer }
    }

    /// The name shown in the undo history.
    pub fn name(&self) -> (r: String)
        ensures
            r@ == "Modify Terrain Layer Mask"@,
    {
        String::from_str("Modify Terrain Layer Mask")
    }

    /// `after` and `terrain_after` are the result of one swap on `before` and
    /// `terrain_before`: the layer's live masks are overwritten with the `new` pixels and
    /// the buffers trade places; all else stays.
    pub open spec fn swapped<R, L>(
        before: Self,
        terrain_before: Terrain<R, L>,
        after: Self,
        terrain_after: Terrain<R, L>,
    ) -> bool {
        &&& terrain_after@.well_formed()
        &&& after.layer == before.layer
        &&& terrain_after.layers == terrain_before.layers
        &&& terrain_after.mask_size == terrain_before.mask_size
        &&& terrain_after.chunks@.len() == terrain_before.chunks@.len()
        &&& after.old_masks@.len() == before.old_masks@.len()
        &&& after.new_masks@.len() == before.new_masks@.len()
        &&& forall|i: int|
            0 <= i < terrain_before.chunks@.len() ==> {
                &&& (#[trigger] terrain_after.chunks@[i]).heightmap
                    == terrain_before.chunks@[i].heightmap
                &&& terrain_after.chunks@[i]@.layer_masks =~= terrain_before.chunks@[i]@.layer_masks.update(
                    before.layer as int,
                    overwritten(
                        terrain_before.chunks@[i]@.layer_masks[before.layer as int],
                        before.new_masks@[i]@,
                    ),
                )
                &&& after.old_masks@[i] == before.new_masks@[i]
                &&& after.new_masks@[i] == before.old_masks@[i]
            }
    }

    /// Writes the pixels of the `new` buffer into each chunk's live mask of the layer,
    /// pixel by pixel (the mask buffer itself stays in place), then trades the two
    /// buffers, so that the next swap undoes this one.
    pub fn swap<R, L>(&mut self, terrain: &mut Terrain<R, L>)
        requires
            old(terrain)@.well_formed(),
            old(self).layer < old(terrain).layers@.len(),
            old(self).old_masks@.len() == old(terrain).chunks@.len(),
            old(self).new_masks@.len() == old(terrain).chunks@.len(),
        ensures
            Self::swapped(*old(self), *old(terrain), *final(self), *final(terrain)),
    {
        let ghost t0 = *terrain;
        let ghost c0 = *self;
        let layer = self.layer;
        let mut i: usize = 0;
        while i < terrain.chunks.len()
            invariant
                0 <= i <= terrain.chunks@.len(),
                terrain.chunks@.len() == t0.chunks@.len(),
                terrain.layers == t0.layers,
                terrain.mask_size == t0.mask_size,
                t0@.well_formed(),
                self.layer == layer,
                layer == c0.layer,
                layer < t0.layers@.len(),
                self.old_masks@.len() == c0.old_masks@.len(),
                self.new_masks@.len() == c0.new_masks@.len(),
                c0.old_masks@.len() >= t0.chunks@.len(),
                c0.new_masks@.len() >= t0.chunks@.len(),
                forall|k: int| i <= k < t0.chunks@.len() ==> #[trigger] terrain.chunks@[k] == t0.chunks@[k],
                forall|k: int| i <= k < c0.old_masks@.len() ==> #[trigger] self.old_masks@[k] == c0.old_masks@[k],
                forall|k: int| i <= k < c0.new_masks@.len() ==> #[trigger] self.new_masks@[k] == c0.new_masks@[k],
                forall|k: int|
                    0 <= k < i ==> {
                        &&& (#[trigger] terrain.chunks@[k]).heightmap == t0.chunks@[k].heightmap
                        &&& terrain.chunks@[k]@.layer_masks =~= t0.chunks@[k]@.layer_masks.update(
                            layer as int,
                            overwritten(t0.chunks@[k]@.layer_masks[layer as int], c0.new_masks@[k]@),
                        )
                        &&& self.old_masks@[k] == c0.new_masks@[k]
                        &&& self.new_masks@[k] == c0.old_masks@[k]
                    },
            decreases t0.chunks@.len() - i,
        {
            assert(t0@.chunks[i as int] == t0.chunks@[i as int]@);
            assert(t0.chunks@[i as int]@.layer_masks.len() == t0.layers@.len());
            let ghost before = terrain.chunks@[i as int];
            overwrite_pixels(&mut terrain.chunks[i].layer_masks[layer], &self.new_masks[i]);
            assert(terrain.chunks@[i as int]@.layer_masks =~= before@.layer_masks.update(
                layer as int,
                overwritten(before@.layer_masks[layer as int], c0.new_masks@[i as int]@),
            ));
            std::mem::swap(&mut self.old_masks[i], &mut self.new_masks[i]);
            i = i + 1;
        }
        assert forall|k: int| 0 <= k < terrain@.chunks.len() implies (#[trigger] terrain@.chunks[k]).layer_masks.len()
            == terrain@.layers.len() by {
            assert(t0@.chunks[k] == t0.chunks@[k]@);
        }
    }
}

impl ModifyTerrainLayerMaskCommand {
    /// Applies the edit (see [`ModifyTerrainLayerMaskCommand::swap`]).
    pub fn execute<R, L>(&mut self, terrain: &mut Terrain<R, L>)
        requires
            old(terrain)@.well_formed(),
            old(self).layer < old(terrain).layers@.len(),
            old(self).old_masks@.len() == old(terrain).chunks@.len(),
            old(self).new_masks@.len() == old(terrain).chunks@.len(),
        ensures
            Self::swapped(*old(self), *old(terrain), *final(self), *final(terrain)),
    {
        self.swap(terrain);
    }

    /// Undoes the edit (see [`ModifyTerrainLayerMaskCommand::swap`]).
    pub fn revert<R, L>(&mut self, terrain: &mut Terrain<R, L>)
        requires
            old(terrain)@.well_formed(),
            old(self).layer < old(terrain).layers@.len(),
            old(self).old_masks@.len() == old(terrain).chunks@.len(),
            old(self).new_masks@.len() == old(terrain).chunks@.len(),
        ensures
            Self::swapped(*old(self), *old(terrain), *final(self), *final(terrain)),
    {
        self.swap(terrain);
    }
}

} // verus!
