use ordermap::OrderSet;
use vstd::prelude::*;

use crate::ordered::{
    order_set_insert, order_set_items, order_set_new, order_set_remove, order_set_to_vec,
    other_than,
};
use crate::util::OpaqueId;

verus! {

/// Draw mode of a line list.
pub const GL_LINES: u32 = 0x0001;

/// Draw mode of a triangle list.
pub const GL_TRIANGLES: u32 = 0x0004;

/// The draw call that renders a primitive.
#[derive(Debug, Clone, Copy, PartialEq, Eq, Structural)]
pub enum DrawCall {
    /// Non-indexed: `count` vertices from the bound array, in `mode`.
    Arrays { mode: u32, count: u32 },
    /// Indexed: `count` indices from the bound element buffer, in `mode`.
    Elements { mode: u32, count: u32 },
}

/// A two-point line of one colour, by its GPU objects.
#[derive(Debug, Clone, Copy, PartialEq, Eq, Structural)]
pub struct SimpleLineGeom {
    pub vao: u32,
    pub vbo: u32,
}

/// A textured axis-aligned quad, by its GPU objects.
#[derive(Debug, Clone, Copy, PartialEq, Eq, Structural)]
pub struct SpriteMesh {
    pub vao: u32,
    pub vbo: u32,
    pub ebo: u32,
}

/// One vertex of a sprite quad: its position and its texture coordinate.
#[derive(Debug, Clone, Copy, PartialEq, Eq, Structural)]
pub struct SpriteVertex {
    pub x: u32,
    pub y: u32,
    pub u: u32,
    pub v: u32,
}

pub open spec fn sprite_vertex(x: u32, y: u32, u: u32, v: u32) -> SpriteVertex {
    SpriteVertex { x, y, u, v }
}

impl SpriteMesh {
    /// The four corners of the quad spanned by `[x0, y0, x1, y1]`, with
    /// `(x0, y0)` bottom-left: top-left, bottom-left, bottom-right,
    /// top-right, each with its unit texture coordinate.
    pub fn vertices(points: [u32; 4]) -> (r: Vec<SpriteVertex>)
        ensures
            r@ == seq![
                sprite_vertex(points[0], points[3], 0, 1),
                sprite_vertex(points[0], points[1], 0, 0),
                sprite_vertex(points[2], points[1], 1, 0),
                sprite_vertex(points[2], points[3], 1, 1),
            ],
    {
        let mut r: Vec<SpriteVertex> = Vec::new();
        r.push(SpriteVertex { x: points[0], y: points[3], u: 0, v: 1 });
        r.push(SpriteVertex { x: points[0], y: points[1], u: 0, v: 0 });
        r.push(SpriteVertex { x: points[2], y: points[1], u: 1, v: 0 });
        r.push(SpriteVertex { x: points[2], y: points[3], u: 1, v: 1 });
        proof {
            assert(r@ =~= seq![
                sprite_vertex(points[0], points[3], 0, 1),
                sprite_vertex(points[0], points[1], 0, 0),
                sprite_vertex(points[2], points[1], 1, 0),
                sprite_vertex(points[2], points[3], 1, 1),
            ]);
        }
        r
    }

    /// The element indices of the quad's two triangles.
    pub fn indices() -> (r: Vec<u32>)
        ensures
            r@ == seq![0u32, 1, 2, 0, 2, 3],
    {
        let r: Vec<u32> = vec![0, 1, 2, 0, 2, 3];
        proof {
            assert(r@ =~= seq![0u32, 1, 2, 0, 2, 3]);
        }
        r
    }
}

/// A drawable primitive.
#[derive(Debug, Clone, Copy, PartialEq, Eq, Structural)]
pub enum Primitive {
    Line(SimpleLineGeom),
    Sprite(SpriteMesh),
}

pub open spec fn prim_vao(p: Primitive) -> u32 {
    match p {
        Primitive::Line(g) => g.vao,
        Primitive::Sprite(m) => m.vao,
    }
}

/// A line is two vertices as a line list; a sprite is six indices as a
/// triangle list.
pub open spec fn prim_draw_call(p: Primitive) -> DrawCall {
    match p {
        Primitive::Line(_) => DrawCall::Arrays { mode: GL_LINES, count: 2 },
        Primitive::Sprite(_) => DrawCall::Elements { mode: GL_TRIANGLES, count: 6 },
    }
}

impl Primitive {
    /// The vertex array to bind before drawing.
    pub fn vao(&self) -> (r: u32)
        ensures
            r == prim_vao(*self),
    {
        match self {
            Primitive::Line(g) => g.vao,
            Primitive::Sprite(m) => m.vao,
        }
    }

    /// The draw call that renders the primitive.
    pub fn draw_call(&self) -> (r: DrawCall)
        ensures
            r == prim_draw_call(*self),
    {
        match self {
            Primitive::Line(_) => DrawCall::Arrays { mode: GL_LINES, count: 2 },
            Primitive::Sprite(_) => DrawCall::Elements { mode: GL_TRIANGLES, count: 6 },
        }
    }
}

/// A contributor set with `id` attached: unchanged if already there, else
/// `id` goes last.
pub open spec fn with_added(s: Seq<usize>, id: usize) -> Seq<usize> {
    if s.contains(id) {
        s
    } else {
        s.push(id)
    }
}

/// A contributor set with `id` detached; the others keep their order.
pub open spec fn with_removed(s: Seq<usize>, id: usize) -> Seq<usize> {
    s.filter(other_than(id))
}

/// What a drawable set holds: its primitive and the identities of its
/// model-transform and colour-filter contributors, in insertion order.
pub ghost struct DrawableSetView {
    pub prim: Primitive,
    pub models: Seq<usize>,
    pub filters: Seq<usize>,
}

/// A primitive together with the transforms and filters to apply to it,
/// each contributor attached at most once, by identity.
pub struct DrawableSet {
    prim: Primitive,
    models: OrderSet<usize>,
    filters: OrderSet<usize>,
}

proof fn lemma_push_distinct(s: Seq<usize>, x: usize)
    requires
        s.no_duplicates(),
        !s.contains(x),
    ensures
        s.push(x).no_duplicates(),
{
    assert forall|i: int, j: int| 0 <= i < j < s.len() + 1 implies s.push(x)[i] != s.push(
        x,
    )[j] by {
        if j == s.len() {
            assert(s.push(x)[i] == s[i]);
        }
    }
}

proof fn lemma_filter_keeps_distinct(s: Seq<usize>, id: usize)
    requires
        s.no_duplicates(),
    ensures
        with_removed(s, id).no_duplicates(),
        !with_removed(s, id).contains(id),
    decreases s.len(),
{
    let p = other_than(id);
    if s.len() == 0 {
        assert(s.filter(p) =~= Seq::<usize>::empty());
    } else {
        let rest = s.drop_last();
        let last = s.last();
        assert(s =~= rest.push(last));
        assert(rest.no_duplicates());
        assert(!rest.contains(last)) by {
            if rest.contains(last) {
                let i = choose|i: int| 0 <= i < rest.len() && rest[i] == last;
                assert(s[i] == s[s.len() - 1]);
            }
        }
        lemma_filter_keeps_distinct(rest, id);
        rest.lemma_filter_push(last, p);
        if last != id {
            if rest.filter(p).contains(last) {
                rest.lemma_filter_contains_rev(p, last);
            }
            lemma_push_distinct(rest.filter(p), last);
            assert(!rest.filter(p).push(last).contains(id)) by {
                if rest.filter(p).push(last).contains(id) {
                    let i = choose|i: int|
                        0 <= i < rest.filter(p).len() + 1 && rest.filter(p).push(last)[i] == id;
                    if i < rest.filter(p).len() {
                        assert(rest.filter(p)[i] == id);
                    }
                }
            }
        }
    }
}

impl View for DrawableSet {
    type V = DrawableSetView;

    closed spec fn view(&self) -> DrawableSetView {
        DrawableSetView {
            prim: self.prim,
            models: order_set_items(self.models),
            filters: order_set_items(self.filters),
        }
    }
}

impl DrawableSet {
    /// Every contributor appears at most once in each set.
    pub open spec fn wf(&self) -> bool {
        self@.models.no_duplicates() && self@.filters.no_duplicates()
    }

    /// A set that draws `prim` with no contributors.
    pub fn new(prim: Primitive) -> (r: DrawableSet)
        ensures
            r.wf(),
            r@.prim == prim,
            r@.models == Seq::<usize>::empty(),
            r@.filters == Seq::<usize>::empty(),
    {
        DrawableSet { prim, models: order_set_new(), filters: order_set_new() }
    }

    pub fn prim(&self) -> (r: &Primitive)
        ensures
            *r == self@.prim,
    {
        &self.prim
    }

    /// Attaches a model transform; attaching one already present does
    /// nothing.
    pub fn add_model_transform(&mut self, transform: OpaqueId)
        requires
            old(self).wf(),
        ensures
            final(self).wf(),
            final(self)@ == (DrawableSetView {
                models: with_added(old(self)@.models, transform@),
                ..old(self)@
            }),
    {
        let _ = order_set_insert(&mut self.models, transform.id());
        proof {
            let s = order_set_items(old(self).models);
            if !s.contains(transform@) {
                lemma_push_distinct(s, transform@);
            }
        }
    }

    /// Detaches a model transform; detaching one that is absent does
    /// nothing.
    pub fn remove_model_transform(&mut self, transform: OpaqueId)
        requires
            old(self).wf(),
        ensures
            final(self).wf(),
            final(self)@ == (DrawableSetView {
                models: with_removed(old(self)@.models, transform@),
                ..old(self)@
            }),
    {
        let _ = order_set_remove(&mut self.models, transform.id());
        proof {
            lemma_filter_keeps_distinct(order_set_items(old(self).models), transform@);
        }
    }

    /// Attaches a colour filter; attaching one already present does nothing.
    pub fn add_filter_transform(&mut self, filter: OpaqueId)
        requires
            old(self).wf(),
        ensures
            final(self).wf(),
            final(self)@ == (DrawableSetView {
                filters: with_added(old(self)@.filters, filter@),
                ..old(self)@
            }),
    {
        let _ = order_set_insert(&mut self.filters, filter.id());
        proof {
            let s = order_set_items(old(self).filters);
            if !s.contains(filter@) {
                lemma_push_distinct(s, filter@);
            }
        }
    }

    /// Detaches a colour filter; detaching one that is absent does nothing.
    pub fn remove_filter_transform(&mut self, filter: OpaqueId)
        requires
            old(self).wf(),
        ensures
            final(self).wf(),
            final(self)@ == (DrawableSetView {
                filters: with_removed(old(self)@.filters, filter@),
                ..old(self)@
            }),
    {
        let _ = order_set_remove(&mut self.filters, filter.id());
        proof {
            lemma_filter_keeps_distinct(order_set_items(old(self).filters), filter@);
        }
    }

    /// The model transforms in the order their matrices are folded: the
    /// first one's matrix starts the product and each later one multiplies
    /// it from the left. None at all stands for the identity.
    pub fn model_transforms(&self) -> (r: Vec<usize>)
        ensures
            r@ == self@.models,
    {
        order_set_to_vec(&self.models)
    }

    /// The colour filters, in the same fold order as the model transforms.
    pub fn filter_transforms(&self) -> (r: Vec<usize>)
        ensures
            r@ == self@.filters,
    {
        order_set_to_vec(&self.filters)
    }
}

/// Attaching a contributor twice is the same as attaching it once; a fresh
/// set with one contributor attached twice holds just that one; detaching a
/// contributor that is absent leaves the set as it was.
pub proof fn law_attach_idempotent(s: Seq<usize>, id: usize, absent: usize)
    requires
        !s.contains(absent),
    ensures
        with_added(with_added(s, id), id) == with_added(s, id),
        with_added(with_added(Seq::<usize>::empty(), id), id) == seq![id],
        with_removed(s, absent) == s,
{
    assert(with_added(s, id).contains(id)) by {
        if !s.contains(id) {
            assert(s.push(id)[s.len() as int] == id);
        }
    }
    assert(Seq::<usize>::empty().push(id) =~= seq![id]);
    assert(with_added(Seq::<usize>::empty(), id).contains(id)) by {
        assert(seq![id][0] == id);
    }
    lemma_filter_absent(s, absent);
}

proof fn lemma_filter_absent(s: Seq<usize>, id: usize)
    requires
        !s.contains(id),
    ensures
        with_removed(s, id) == s,
    decreases s.len(),
{
    let p = other_than(id);
    if s.len() == 0 {
        assert(s.filter(p) =~= s);
    } else {
        let rest = s.drop_last();
        assert(s =~= rest.push(s.last()));
        assert(!rest.contains(id)) by {
            if rest.contains(id) {
                let i = choose|i: int| 0 <= i < rest.len() && rest[i] == id;
                assert(s[i] == id);
            }
        }
        lemma_filter_absent(rest, id);
        assert(s.last() != id) by {
            assert(s[s.len() - 1] == s.last());
        }
        rest.lemma_filter_push(s.last(), p);
    }
}

/// Distinct contributors attached in the order A, B, C to an empty set are
/// folded in that order: A's matrix first, then B's, then C's.
pub proof fn law_fold_order_is_insertion_order(a: usize, b: usize, c: usize)
    requires
        a != b,
        b != c,
        a != c,
    ensures
        with_added(with_added(with_added(Seq::<usize>::empty(), a), b), c) == seq![a, b, c],
{
    let s1 = with_added(Seq::<usize>::empty(), a);
    assert(s1 =~= seq![a]);
    assert(!s1.contains(b)) by {
        if s1.contains(b) {
            let i = choose|i: int| 0 <= i < s1.len() && s1[i] == b;
            assert(s1[0] == a);
        }
    }
    let s2 = with_added(s1, b);
    assert(s2 =~= seq![a, b]);
    assert(!s2.contains(c)) by {
        if s2.contains(c) {
            let i = choose|i: int| 0 <= i < s2.len() && s2[i] == c;
            assert(s2[0] == a && s2[1] == b);
        }
    }
    assert(with_added(s2, c) =~= seq![a, b, c]);
}

} // verus!
