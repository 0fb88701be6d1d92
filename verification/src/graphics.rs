//! The frame orchestrator: the layers of the scene, the surface they share
//! and the resources they draw with.
//!
//! While it is active the orchestrator takes the scroll offset of each frame,
//! hands it to every layer and renders the layers back to front. Destroying
//! it gives back every GPU handle, the layers' before the resources', and
//! leaves it with nothing to draw and nothing to release.

use vstd::prelude::*;
use crate::resources::{Release, ResourceManager, ResourceModel};
use crate::screen::ScreenContext;
use crate::sprites::{SpriteFrame, SpriteMapContext};
use crate::tilemap::{TileFrame, TileMapContext};

verus! {

/// One layer of the scene.
#[derive(Debug)]
pub enum Layer {
    Sprite(SpriteMapContext),
    TileMap(TileMapContext),
}

/// What one layer hands to the GPU for one frame. A tile layer whose grid has
/// a side of zero tiles hands over nothing.
#[derive(Debug)]
pub enum LayerFrame {
    Sprite(SpriteFrame),
    TileMap(Option<TileFrame>),
}

impl Layer {
    /// Whether a frame of the layer can be rendered for `screen`.
    pub open spec fn paintable(&self, screen: &ScreenContext) -> bool {
        match self {
            Layer::Sprite(l) => l.paintable(),
            Layer::TileMap(l) => l.paintable(screen),
        }
    }

    /// The vertex array of the layer.
    pub open spec fn vertex_array(&self) -> u32 {
        match self {
            Layer::Sprite(l) => l.vertex_array,
            Layer::TileMap(l) => l.vertex_array,
        }
    }

    /// The instance buffer of the layer.
    pub open spec fn buffer(&self) -> u32 {
        match self {
            Layer::Sprite(l) => l.buffer,
            Layer::TileMap(l) => l.buffer,
        }
    }

    /// The layer scrolled to the given offset, in pixels, and otherwise as it
    /// is.
    pub open spec fn with_pan(self, pan_x: i32, pan_y: i32) -> Layer {
        match self {
            Layer::Sprite(l) => Layer::Sprite(SpriteMapContext { pan_x, pan_y, ..l }),
            Layer::TileMap(l) => Layer::TileMap(
                TileMapContext {
                    map: crate::tilemap::TileMap { pan_x, pan_y, ..l.map },
                    ..l
                },
            ),
        }
    }

    /// What `paint` does: a layer of either kind renders as its own renderer
    /// says, and hands over a frame of its kind.
    pub open spec fn paints(&self, after: &Layer, screen: &ScreenContext, frame: LayerFrame) -> bool {
        match (self, after, frame) {
            (Layer::Sprite(l), Layer::Sprite(a), LayerFrame::Sprite(f)) => l.paints(a, screen, f),
            (Layer::TileMap(l), Layer::TileMap(a), LayerFrame::TileMap(f)) => l.paints(
                a,
                screen,
                f,
            ),
            _ => false,
        }
    }

    /// Whether a frame of the layer can be rendered for `screen`.
    pub fn can_paint(&self, screen: &ScreenContext) -> (r: bool)
        ensures
            r == self.paintable(screen),
    {
        match self {
            Layer::Sprite(l) => l.can_paint(),
            Layer::TileMap(l) => l.can_paint(screen),
        }
    }

    /// Scrolls the layer to the given offset, in pixels.
    pub fn set_pan(&mut self, pan_x: i32, pan_y: i32)
        ensures
            *final(self) == old(self).with_pan(pan_x, pan_y),
    {
        match self {
            Layer::Sprite(l) => {
                l.pan_x = pan_x;
                l.pan_y = pan_y;
            },
            Layer::TileMap(l) => {
                l.map.pan_x = pan_x;
                l.map.pan_y = pan_y;
            },
        }
    }

    /// Renders one frame of the layer.
    pub fn paint(&mut self, screen: &ScreenContext) -> (frame: LayerFrame)
        requires
            old(self).paintable(screen),
        ensures
            old(self).paints(final(self), screen, frame),
    {
        match self {
            Layer::Sprite(l) => LayerFrame::Sprite(l.paint(screen)),
            Layer::TileMap(l) => LayerFrame::TileMap(l.paint(screen)),
        }
    }

    /// The GPU objects that the layer owns and that are to be deleted with
    /// it: its vertex array and its instance buffer.
    pub fn destroy(&self) -> (handles: (u32, u32))
        ensures
            handles == (self.vertex_array(), self.buffer()),
    {
        match self {
            Layer::Sprite(l) => l.destroy(),
            Layer::TileMap(l) => l.destroy(),
        }
    }
}

/// Whether the orchestrator still renders.
#[derive(Clone, Copy, Debug, PartialEq, Eq, Structural)]
pub enum Phase {
    /// Frames are rendered.
    Active,
    /// The GPU handles were given back. Nothing is rendered any more.
    Destroyed,
}

/// The handles that the layers give back, layer by layer in the declared
/// order: for each layer its vertex array, then its instance buffer.
pub open spec fn layer_releases(layers: Seq<Layer>) -> Seq<Release> {
    Seq::new(
        layers.len() * 2,
        |k: int|
            if k % 2 == 0 {
                Release::VertexArray(layers[k / 2].vertex_array())
            } else {
                Release::Buffer(layers[k / 2].buffer())
            },
    )
}

/// The scene: its layers in the declared order, the surface they share and
/// the resources they draw with.
#[derive(Debug)]
pub struct RetroGraphics {
    pub resources: ResourceManager,
    pub screen: ScreenContext,
    pub layers: Vec<Layer>,
    pub phase: Phase,
}

impl RetroGraphics {
    /// Whether a frame of every layer can be rendered for the surface.
    pub open spec fn paintable(&self) -> bool {
        forall|i: int| 0 <= i < self.layers@.len() ==> (#[trigger] self.layers@[i]).paintable(&self.screen)
    }

    /// The active scene of the given layers on a surface of 256 by 224
    /// pixels.
    pub fn new(resources: ResourceManager, layers: Vec<Layer>) -> (r: Self)
        ensures
            r.resources == resources,
            r.layers == layers,
            r.screen == (ScreenContext { screen_px_x: 256, screen_px_y: 224 }),
            r.phase == Phase::Active,
    {
        RetroGraphics { resources, screen: ScreenContext::new(), layers, phase: Phase::Active }
    }

    /// Whether a frame of every layer can be rendered for the surface.
    pub fn can_paint(&self) -> (r: bool)
        ensures
            r == self.paintable(),
    {
        let mut i: usize = 0;
        while i < self.layers.len()
            invariant
                i <= self.layers@.len(),
                forall|k: int| 0 <= k < i ==> (#[trigger] self.layers@[k]).paintable(&self.screen),
            decreases self.layers@.len() - i,
        {
            if !self.layers[i].can_paint(&self.screen) {
                return false;
            }
            i = i + 1;
        }
        true
    }

    /// Scrolls every layer to the given offset, in pixels.
    pub fn set_pan(&mut self, pan_x: i32, pan_y: i32)
        ensures
            final(self).layers@.len() == old(self).layers@.len(),
            forall|i: int|
                0 <= i < old(self).layers@.len() ==> #[trigger] final(self).layers@[i] == old(
                    self,
                ).layers@[i].with_pan(pan_x, pan_y),
            final(self).resources == old(self).resources,
            final(self).screen == old(self).screen,
            final(self).phase == old(self).phase,
    {
        let mut i: usize = 0;
        while i < self.layers.len()
            invariant
                i <= self.layers@.len(),
                self.layers@.len() == old(self).layers@.len(),
                forall|k: int|
                    0 <= k < i ==> #[trigger] self.layers@[k] == old(self).layers@[k].with_pan(
                        pan_x,
                        pan_y,
                    ),
                forall|k: int|
                    i <= k < self.layers@.len() ==> #[trigger] self.layers@[k] == old(
                        self,
                    ).layers@[k],
                self.resources == old(self).resources,
                self.screen == old(self).screen,
                self.phase == old(self).phase,
            decreases self.layers@.len() - i,
        {
            self.layers[i].set_pan(pan_x, pan_y);
            i = i + 1;
        }
    }

    /// Renders one frame: every layer, back to front, which is the reverse of
    /// the declared order, so that a layer declared earlier is drawn on top
    /// of one declared later. A destroyed scene renders nothing.
    pub fn paint(&mut self) -> (frames: Vec<LayerFrame>)
        requires
            old(self).paintable(),
        ensures
            final(self).resources == old(self).resources,
            final(self).screen == old(self).screen,
            final(self).phase == old(self).phase,
            final(self).layers@.len() == old(self).layers@.len(),
            old(self).phase == Phase::Destroyed ==> {
                &&& frames@.len() == 0
                &&& final(self).layers == old(self).layers
            },
            old(self).phase == Phase::Active ==> {
                &&& frames@.len() == old(self).layers@.len()
                &&& forall|k: int|
                    0 <= k < frames@.len() ==> old(self).layers@[old(self).layers@.len() - 1
                        - k].paints(
                        &final(self).layers@[old(self).layers@.len() - 1 - k],
                        &old(self).screen,
                        #[trigger] frames@[k],
                    )
            },
    {
        let mut frames: Vec<LayerFrame> = Vec::new();
        if self.phase == Phase::Destroyed {
            return frames;
        }
        let screen = self.screen;
        let count: usize = self.layers.len();
        let mut done: usize = 0;
        while done < count
            invariant
                done <= count,
                count == old(self).layers@.len(),
                self.layers@.len() == count,
                screen == old(self).screen,
                self.resources == old(self).resources,
                self.screen == old(self).screen,
                self.phase == old(self).phase,
                old(self).paintable(),
                frames@.len() == done,
                forall|k: int|
                    0 <= k < done ==> old(self).layers@[count - 1 - k].paints(
                        &self.layers@[count - 1 - k],
                        &screen,
                        #[trigger] frames@[k],
                    ),
                forall|j: int|
                    0 <= j < count - done ==> #[trigger] self.layers@[j] == old(self).layers@[j],
            decreases count - done,
        {
            let at: usize = count - 1 - done;
            assert(self.layers@[at as int] == old(self).layers@[at as int]);
            assert(old(self).layers@[at as int].paintable(&old(self).screen));
            let frame = self.layers[at].paint(&screen);
            frames.push(frame);
            done = done + 1;
        }
        frames
    }

    /// Ends the scene: gives back every GPU handle it holds, those of the
    /// layers first, in the declared order of the layers, then those of the
    /// resources. The scene is destroyed afterwards and holds no layer and no
    /// resource, so that a second call gives back nothing.
    pub fn destroy(&mut self) -> (handles: Vec<Release>)
        ensures
            handles@ == layer_releases(old(self).layers@) + old(self).resources@.released(),
            final(self).phase == Phase::Destroyed,
            final(self).layers@ == Seq::<Layer>::empty(),
            final(self).resources@ == ResourceModel::empty(),
            final(self).resources.wf(),
            final(self).screen == old(self).screen,
    {
        let mut handles: Vec<Release> = Vec::new();
        let mut i: usize = 0;
        while i < self.layers.len()
            invariant
                *self == *old(self),
                i <= self.layers@.len(),
                handles@.len() == i * 2,
                forall|k: int|
                    0 <= k < i * 2 ==> handles@[k] == layer_releases(self.layers@)[k],
            decreases self.layers@.len() - i,
        {
            let (vertex_array, buffer) = self.layers[i].destroy();
            handles.push(Release::VertexArray(vertex_array));
            handles.push(Release::Buffer(buffer));
            i = i + 1;
        }
        assert(handles@ =~= layer_releases(old(self).layers@));
        let mut rest = self.resources.destroy();
        handles.append(&mut rest);
        self.layers.clear();
        self.phase = Phase::Destroyed;
        handles
    }

    /// A destroyed scene gives back nothing when it is destroyed again: no
    /// handle is released twice.
    pub proof fn lemma_destroyed_scene_releases_nothing()
        ensures
            layer_releases(Seq::<Layer>::empty()) + ResourceModel::empty().released() == Seq::<
                Release,
            >::empty(),
    {
        assert(layer_releases(Seq::<Layer>::empty()) + ResourceModel::empty().released()
            =~= Seq::<Release>::empty());
    }

    /// The handles of the layers come before those of the resources: the
    /// first `2 * n` handles given back by a scene of `n` layers are vertex
    /// arrays and buffers, and every later one is a program or a texture.
    pub proof fn lemma_layers_released_before_resources(
        layers: Seq<Layer>,
        resources: ResourceModel,
        k: int,
    )
        requires
            0 <= k < (layer_releases(layers) + resources.released()).len(),
        ensures
            k < layers.len() * 2 ==> {
                let h = (layer_releases(layers) + resources.released())[k];
                h is VertexArray || h is Buffer
            },
            k >= layers.len() * 2 ==> {
                let h = (layer_releases(layers) + resources.released())[k];
                h is Program || h is Texture
            },
    {
    }
}

} // verus!
