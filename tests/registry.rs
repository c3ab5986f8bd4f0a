use ocean_engine::graphics::{Extent, Graphics};
use ocean_engine::registry::{MaterialRenderer, ModelRenderer};

/// A material that records which meshes it was handed.
struct Recorder {
    name: u32,
}

impl MaterialRenderer<Vec<(u32, Vec<u32>)>, u32> for Recorder {
    fn render(&mut self, ctx: &mut Vec<(u32, Vec<u32>)>, models: &[u32]) {
        ctx.push((self.name, models.to_vec()));
    }
}

#[test]
fn meshes_go_to_their_own_material_in_registration_order() {
    let g = Graphics::new(800, 600);
    let mut reg: ModelRenderer<Recorder, u32, &str> = ModelRenderer::new(&g, "depth");
    let a = reg.add_material(Recorder { name: 1 });
    let b = reg.add_material(Recorder { name: 2 });
    assert_ne!(a, b);
    let m1 = reg.add_model(10, a);
    let m2 = reg.add_model(20, b);
    let m3 = reg.add_model(11, a);
    let m4 = reg.add_model(21, b);
    let m5 = reg.add_model(22, b);
    assert_eq!(m1.material_id, a);
    assert_eq!(m2.material_id, b);
    assert_eq!(m3.material_id, a);
    assert_ne!(m1, m3);
    assert_ne!(m4, m5);
    let mut calls = Vec::new();
    reg.render(&mut calls);
    assert_eq!(calls, vec![(1, vec![10, 11]), (2, vec![20, 21, 22])]);
    // Rendering again hands out the same batches.
    let mut again = Vec::new();
    reg.render(&mut again);
    assert_eq!(again, calls);
}

#[test]
fn mesh_added_after_render_is_drawn_next_time() {
    let g = Graphics::new(800, 600);
    let mut reg: ModelRenderer<Recorder, u32, ()> = ModelRenderer::new(&g, ());
    let mut calls = Vec::new();
    reg.render(&mut calls);
    assert!(calls.is_empty());
    let a = reg.add_material(Recorder { name: 7 });
    reg.add_model(70, a);
    reg.render(&mut calls);
    assert_eq!(calls, vec![(7, vec![70])]);
}

#[test]
fn material_without_meshes_gets_an_empty_batch() {
    let g = Graphics::new(800, 600);
    let mut reg: ModelRenderer<Recorder, u32, ()> = ModelRenderer::new(&g, ());
    reg.add_material(Recorder { name: 3 });
    let mut calls = Vec::new();
    reg.render(&mut calls);
    assert_eq!(calls, vec![(3, vec![])]);
}

#[test]
fn foreign_material_id_is_not_found() {
    let g = Graphics::new(800, 600);
    let mut first: ModelRenderer<Recorder, u32, ()> = ModelRenderer::new(&g, ());
    let mut second: ModelRenderer<Recorder, u32, ()> = ModelRenderer::new(&g, ());
    let a = first.add_material(Recorder { name: 1 });
    let b = first.add_material(Recorder { name: 2 });
    assert!(first.contains_material(a));
    assert!(first.contains_material(b));
    assert!(!second.contains_material(b));
    let c = second.add_material(Recorder { name: 3 });
    assert!(second.contains_material(c));
    assert!(!second.contains_material(b));
}

#[test]
fn depth_target_follows_resize() {
    let mut g = Graphics::new(800, 600);
    let mut reg: ModelRenderer<Recorder, u32, (u32, u32)> = ModelRenderer::new(&g, (800, 600));
    assert_eq!(reg.depth_size(), Extent { width: 800, height: 600 });
    g.resize((1600, 900));
    let size = g.viewport_size();
    reg.on_resize(&g, (size.width, size.height));
    assert_eq!(reg.depth_size(), Extent { width: 1600, height: 900 });
    assert_eq!(reg.depth_size(), g.viewport_size());
    assert_eq!(*reg.depth_target(), (1600, 900));
}

#[test]
fn depth_target_keeps_size_after_degenerate_resize() {
    let mut g = Graphics::new(800, 600);
    let mut reg: ModelRenderer<Recorder, u32, ()> = ModelRenderer::new(&g, ());
    g.resize((0, 900));
    reg.on_resize(&g, ());
    assert_eq!(reg.depth_size(), Extent { width: 800, height: 600 });
}
