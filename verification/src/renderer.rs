//! Planning of the particle draw: every particle is a camera-facing quad of
//! two triangles, drawn over the whole window.
use vstd::prelude::*;

verus! {

/// Vertices drawn per particle: two triangles.
pub const VERTICES_PER_PARTICLE: u32 = 6;

/// The window size and particle count the renderer draws with.
#[derive(Clone, Copy, PartialEq, Eq, Structural, Debug)]
pub struct Renderer {
    pub width: u32,
    pub height: u32,
    pub num_of_particles: u32,
}

/// The parameters of one recorded draw.
#[derive(Clone, Copy, PartialEq, Eq, Structural, Debug)]
pub struct DrawPlan {
    /// Render area, from offset (0, 0).
    pub area_width: u32,
    pub area_height: u32,
    pub viewport_width: u32,
    pub viewport_height: u32,
    pub scissor_width: u32,
    pub scissor_height: u32,
    pub vertex_count: u32,
    pub instance_count: u32,
    pub first_vertex: u32,
    pub first_instance: u32,
}

impl Renderer {
    /// A renderer for `num_of_particles` particles in a `width` by `height` window.
    pub fn new(num_of_particles: u32, width: u32, height: u32) -> (r: Renderer)
        ensures
            r.num_of_particles == num_of_particles,
            r.width == width,
            r.height == height,
    {
        Renderer { width, height, num_of_particles }
    }

    /// Takes the new window size.
    pub fn resize(&mut self, width: u32, height: u32)
        ensures
            final(self).width == width,
            final(self).height == height,
            final(self).num_of_particles == old(self).num_of_particles,
    {
        self.height = height;
        self.width = width;
    }

    /// The draw of one frame: the render area, viewport and scissor cover the
    /// window, and six vertices of one instance are drawn per particle.
    pub fn record_rendering(&self) -> (d: DrawPlan)
        requires
            self.num_of_particles * VERTICES_PER_PARTICLE <= u32::MAX,
        ensures
            d.area_width == self.width,
            d.area_height == self.height,
            d.viewport_width == self.width,
            d.viewport_height == self.height,
            d.scissor_width == self.width,
            d.scissor_height == self.height,
            d.vertex_count == self.num_of_particles * VERTICES_PER_PARTICLE,
            d.instance_count == 1,
            d.first_vertex == 0,
            d.first_instance == 0,
    {
        DrawPlan {
            area_width: self.width,
            area_height: self.height,
            viewport_width: self.width,
            viewport_height: self.height,
            scissor_width: self.width,
            scissor_height: self.height,
            vertex_count: self.num_of_particles * VERTICES_PER_PARTICLE,
            instance_count: 1,
            first_vertex: 0,
            first_instance: 0,
        }
    }
}

} // verus!
