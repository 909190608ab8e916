//! The map's layer structure, as the renderer reads it: an ordered list of
//! layers, each of a kind. Exactly one game/physics layer is required — it
//! determines the map size — and only tile layers are materialized for
//! rendering.

use vstd::prelude::*;

use crate::error::PipelineError;

verus! {

/// The kind of a map layer, as far as the renderer cares.
#[derive(Clone, Copy, Debug, PartialEq, Eq, Structural)]
pub enum LayerKind {
    /// The physics/game layer: defines playable geometry and the map size.
    Game,
    /// A tile layer: rendered, and materialized for upload.
    Tiles,
    /// Any other layer: not rendered by this pipeline.
    Other,
}

/// What the renderer reads of one layer: its kind and its size in tiles.
#[derive(Clone, Copy, Debug, PartialEq, Eq, Structural)]
pub struct LayerInfo {
    pub kind: LayerKind,
    pub width: u32,
    pub height: u32,
}

/// The map holds at least one game/physics layer.
pub open spec fn has_game_layer(layers: Seq<LayerInfo>) -> bool {
    exists|i: int| 0 <= i < layers.len() && layers[i].kind is Game
}

/// Only tile layers are materialized for rendering: the selection
/// predicate handed to the layer loader.
pub fn is_tile_layer(kind: LayerKind) -> (r: bool)
    ensures
        r <==> kind is Tiles,
{
    match kind {
        LayerKind::Tiles => true,
        _ => false,
    }
}

/// Find the first game/physics layer. The renderer requires exactly one to
/// determine the map size; a map without one fails with
/// `RequiredLayerMissing` and nothing is rendered.
pub fn find_game_layer(layers: &Vec<LayerInfo>) -> (r: Result<usize, PipelineError>)
    ensures
        match r {
            Ok(i) => {
                &&& has_game_layer(layers@)
                &&& 0 <= i < layers@.len()
                &&& layers@[i as int].kind is Game
                &&& forall|j: int| 0 <= j < i ==> !(layers@[j].kind is Game)
            },
            Err(e) => {
                &&& e == PipelineError::RequiredLayerMissing
                &&& !has_game_layer(layers@)
            },
        },
{
    let n: usize = layers.len();
    let mut i: usize = 0;
    while i < n
        invariant
            i <= n,
            n == layers@.len(),
            forall|j: int| 0 <= j < i ==> !(layers@[j].kind is Game),
        decreases n - i,
    {
        match layers[i].kind {
            LayerKind::Game => {
                return Ok(i);
            },
            _ => {
                i += 1;
            },
        }
    }
    Err(PipelineError::RequiredLayerMissing)
}

/// The map size in tiles: the size of the first game/physics layer.
/// Fails with `RequiredLayerMissing` exactly when the map has none.
pub fn map_size(layers: &Vec<LayerInfo>) -> (r: Result<(u32, u32), PipelineError>)
    ensures
        match r {
            Ok(size) => {
                &&& has_game_layer(layers@)
                &&& exists|i: int|
                    {
                        &&& 0 <= i < layers@.len()
                        &&& layers@[i].kind is Game
                        &&& (forall|j: int| 0 <= j < i ==> !(layers@[j].kind is Game))
                        &&& size.0 == layers@[i].width
                        &&& size.1 == layers@[i].height
                    }
            },
            Err(e) => {
                &&& e == PipelineError::RequiredLayerMissing
                &&& !has_game_layer(layers@)
            },
        },
{
    match find_game_layer(layers) {
        Ok(i) => {
            let info = layers[i];
            Ok((info.width, info.height))
        },
        Err(e) => Err(e),
    }
}

} // verus!
