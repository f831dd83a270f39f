//! The part of a scene that rendering decisions depend on.
//!
//! Geometry, matrices and textures stay with the asset store; a scene here
//! names them by handle and keeps the objects in drawing order.

use vstd::prelude::*;

verus! {

/// A mesh held by the asset store.
#[derive(Clone, Copy, Debug, PartialEq, Eq, Structural)]
pub struct Mesh {
    /// Handle of the vertex and index buffers.
    pub id: u32,
    /// Handle of the texture sampled when the mesh is drawn, if it has one.
    pub texture: Option<u32>,
}

/// One object of a scene.
#[derive(Clone, Copy, Debug, PartialEq, Eq, Structural)]
pub struct Object {
    /// What to draw; an object without a mesh is not drawn.
    pub mesh: Option<Mesh>,
    /// The object emits light.
    pub light_source: bool,
    /// The object's model matrix scales uniformly.
    pub uniform_scale: bool,
}

/// An ordered collection of objects.  Its view is the sequence of objects
/// in drawing order.
#[derive(Clone, Debug, PartialEq, Eq)]
pub struct Scene {
    objects: Vec<Object>,
}

impl View for Scene {
    type V = Seq<Object>;

    closed spec fn view(&self) -> Seq<Object> {
        self.objects@
    }
}

impl Scene {
    /// A scene without objects.
    pub fn new() -> (scene: Scene)
        ensures
            scene@ == Seq::<Object>::empty(),
    {
        Scene { objects: Vec::new() }
    }

    /// Appends `object` behind the objects already in the scene.
    pub fn add_object(&mut self, object: Object)
        ensures
            final(self)@ == old(self)@.push(object),
    {
        self.objects.push(object);
    }

    /// Number of objects, drawn or not.
    pub fn len(&self) -> (n: usize)
        ensures
            n == self@.len(),
    {
        self.objects.len()
    }

    /// The object at position `index`, if there is one.
    pub fn object(&self, index: usize) -> (object: Option<Object>)
        ensures
            index < self@.len() ==> object == Some(self@[index as int]),
            index >= self@.len() ==> object is None,
    {
        if index < self.objects.len() {
            Some(self.objects[index])
        } else {
            None
        }
    }
}

/// Source of the scene to render.
pub struct AssetManager {
    active_scene: Option<Scene>,
}

impl AssetManager {
    /// The view of the active scene, if one is set.
    pub closed spec fn scene(&self) -> Option<Seq<Object>> {
        match self.active_scene {
            Some(scene) => Some(scene@),
            None => None,
        }
    }

    /// An asset manager without an active scene.
    pub fn new() -> (manager: AssetManager)
        ensures
            manager.scene() is None,
    {
        AssetManager { active_scene: None }
    }

    /// Makes `scene` the active scene.
    pub fn set_active_scene(&mut self, scene: Scene)
        ensures
            final(self).scene() == Some(scene@),
    {
        self.active_scene = Some(scene);
    }

    /// Leaves no scene active.
    pub fn clear_active_scene(&mut self)
        ensures
            final(self).scene() is None,
    {
        self.active_scene = None;
    }

    /// The active scene, if one is set.
    pub fn active_scene(&self) -> (scene: Option<&Scene>)
        ensures
            scene is Some <==> self.scene() is Some,
            scene matches Some(s) ==> self.scene() == Some(s@),
    {
        self.active_scene.as_ref()
    }
}

} // verus!
