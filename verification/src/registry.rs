//! Named GPU resources: the render server's registry.
//!
//! Pipelines and bind-group layouts are registered once, by name, and from
//! then on addressed by the typed handle the registration returned. The
//! string-keyed lookup stays available at that boundary; absence is a
//! caller-visible `None`, never a silent substitute.

use vstd::prelude::*;

verus! {

/// Typed handle to a registered render pipeline: its registration index.
#[derive(Clone, Copy, PartialEq, Eq, Structural, Debug)]
pub struct PipelineHandle {
    pub id: usize,
}

/// Typed handle to a registered bind-group layout: its registration index.
#[derive(Clone, Copy, PartialEq, Eq, Structural, Debug)]
pub struct BindGroupLayoutHandle {
    pub id: usize,
}

/// The registry of named GPU resources a scene draws with.
pub struct RenderServer {
    pipelines: Vec<String>,
    bind_group_layouts: Vec<String>,
}

impl RenderServer {
    /// The registered pipeline names, in registration order.
    pub closed spec fn pipelines_view(&self) -> Seq<Seq<char>> {
        self.pipelines@.map_values(|s: String| s@)
    }

    /// The registered bind-group-layout names, in registration order.
    pub closed spec fn layouts_view(&self) -> Seq<Seq<char>> {
        self.bind_group_layouts@.map_values(|s: String| s@)
    }

    /// Whether some pipeline was registered under `name`.
    pub open spec fn has_pipeline(&self, name: Seq<char>) -> bool {
        exists|j: int|
            0 <= j < self.pipelines_view().len() && #[trigger] self.pipelines_view()[j] == name
    }

    /// Whether some bind-group layout was registered under `name`.
    pub open spec fn has_layout(&self, name: Seq<char>) -> bool {
        exists|j: int|
            0 <= j < self.layouts_view().len() && #[trigger] self.layouts_view()[j] == name
    }

    /// An empty registry.
    pub fn new() -> (server: Self)
        ensures
            server.pipelines_view() == Seq::<Seq<char>>::empty(),
            server.layouts_view() == Seq::<Seq<char>>::empty(),
    {
        let server = RenderServer { pipelines: Vec::new(), bind_group_layouts: Vec::new() };
        proof {
            assert(server.pipelines_view() =~= Seq::<Seq<char>>::empty());
            assert(server.layouts_view() =~= Seq::<Seq<char>>::empty());
        }
        server
    }

    /// Register a render pipeline under a name; the handle is its index.
    pub fn register_render_pipeline(&mut self, name: String) -> (h: PipelineHandle)
        ensures
            final(self).pipelines_view() == old(self).pipelines_view().push(name@),
            final(self).layouts_view() == old(self).layouts_view(),
            h.id == old(self).pipelines_view().len(),
    {
        let h = PipelineHandle { id: self.pipelines.len() };
        self.pipelines.push(name);
        proof {
            assert(self.pipelines_view() =~= old(self).pipelines_view().push(
                self.pipelines@[self.pipelines@.len() - 1]@,
            ));
        }
        h
    }

    /// Register a bind-group layout under a name; the handle is its index.
    pub fn register_bind_group_layout(&mut self, name: String) -> (h: BindGroupLayoutHandle)
        ensures
            final(self).layouts_view() == old(self).layouts_view().push(name@),
            final(self).pipelines_view() == old(self).pipelines_view(),
            h.id == old(self).layouts_view().len(),
    {
        let h = BindGroupLayoutHandle { id: self.bind_group_layouts.len() };
        self.bind_group_layouts.push(name);
        proof {
            assert(self.layouts_view() =~= old(self).layouts_view().push(
                self.bind_group_layouts@[self.bind_group_layouts@.len() - 1]@,
            ));
        }
        h
    }

    /// Look a pipeline up by name: the handle of the first registration
    /// under that name, or `None` when the name was never registered.
    pub fn get_render_pipeline(&self, name: &String) -> (r: Option<PipelineHandle>)
        ensures
            match r {
                Some(h) => {
                    &&& h.id < self.pipelines_view().len()
                    &&& self.pipelines_view()[h.id as int] == name@
                    &&& forall|j: int|
                        0 <= j < h.id ==> #[trigger] self.pipelines_view()[j] != name@
                },
                None => !self.has_pipeline(name@),
            },
            r is Some <==> self.has_pipeline(name@),
    {
        let n = self.pipelines.len();
        let mut i: usize = 0;
        while i < n
            invariant
                n == self.pipelines_view().len(),
                i <= n,
                forall|j: int| 0 <= j < i ==> #[trigger] self.pipelines_view()[j] != name@,
            decreases n - i,
        {
            if self.pipelines[i].eq(name) {
                proof {
                    assert(self.pipelines_view()[i as int] == name@);
                }
                return Some(PipelineHandle { id: i });
            }
            i = i + 1;
        }
        None
    }

    /// Look a bind-group layout up by name: the handle of the first
    /// registration under that name, or `None` when it was never registered.
    pub fn get_bind_group_layout(&self, name: &String) -> (r: Option<BindGroupLayoutHandle>)
        ensures
            match r {
                Some(h) => {
                    &&& h.id < self.layouts_view().len()
                    &&& self.layouts_view()[h.id as int] == name@
                    &&& forall|j: int|
                        0 <= j < h.id ==> #[trigger] self.layouts_view()[j] != name@
                },
                None => !self.has_layout(name@),
            },
            r is Some <==> self.has_layout(name@),
    {
        let n = self.bind_group_layouts.len();
        let mut i: usize = 0;
        while i < n
            invariant
                n == self.layouts_view().len(),
                i <= n,
                forall|j: int| 0 <= j < i ==> #[trigger] self.layouts_view()[j] != name@,
            decreases n - i,
        {
            if self.bind_group_layouts[i].eq(name) {
                proof {
                    assert(self.layouts_view()[i as int] == name@);
                }
                return Some(BindGroupLayoutHandle { id: i });
            }
            i = i + 1;
        }
        None
    }
}

} // verus!
