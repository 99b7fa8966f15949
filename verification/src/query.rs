//! The mesh query engine: flattening the hierarchy into an interleaved
//! vertex buffer, the per-face draw-chunk list, and material lookup.
//!
//! Flattening takes only the first three points of each face (the
//! truncation policy of the source format's renderer convention) and
//! treats a normal or texture reference of zero like an absent one,
//! exactly as stated in [`point_stream`].

use vstd::prelude::*;

use crate::model::Face;
use crate::model::Group;
use crate::model::GroupV;
use crate::model::Material;
use crate::model::Mesh;
use crate::model::MeshV;
use crate::model::Object;
use crate::model::ObjectV;
use crate::model::Point;
use crate::model::PointV;
use crate::model::Surface;
use crate::model::SurfaceV;
use crate::model::Tex2V;
use crate::model::Vec3V;
use crate::scalar::Scalar;

verus! {

// ---------------------------------------------------------------------
// Well-formedness for rendering
// ---------------------------------------------------------------------

/// A point the flattener can consume: a present, in-bounds vertex
/// reference; normal and texture references in bounds whenever they
/// are positive (zero and negative ones are treated as absent).
pub open spec fn wf_point(m: MeshV, p: PointV) -> bool {
    &&& 0 <= p.vertex_index < m.vertexes.len()
    &&& (p.normal_index > 0 ==> p.normal_index < m.normals.len())
    &&& (p.texture_coordinate_index > 0 ==> p.texture_coordinate_index
        < m.texture_coordinates.len())
}

/// A face the flattener can consume: at least three points, the first
/// three well-formed (later points are dropped unread).
pub open spec fn face_ok(m: MeshV, f: Seq<PointV>) -> bool {
    f.len() >= 3 && wf_point(m, f[0]) && wf_point(m, f[1]) && wf_point(m, f[2])
}

pub open spec fn surface_ok(m: MeshV, s: SurfaceV) -> bool {
    forall|l: int| 0 <= l < s.faces.len() ==> face_ok(m, #[trigger] s.faces[l])
}

pub open spec fn group_ok(m: MeshV, g: GroupV) -> bool {
    forall|k: int| 0 <= k < g.surfaces.len() ==> surface_ok(m, #[trigger] g.surfaces[k])
}

pub open spec fn object_ok(m: MeshV, o: ObjectV) -> bool {
    forall|j: int| 0 <= j < o.groups.len() ==> group_ok(m, #[trigger] o.groups[j])
}

/// Every face of the mesh can be flattened.
pub open spec fn renderable(m: MeshV) -> bool {
    forall|i: int| 0 <= i < m.objects.len() ==> object_ok(m, #[trigger] m.objects[i])
}

// ---------------------------------------------------------------------
// The flattened stream
// ---------------------------------------------------------------------

/// The eight numbers one point contributes: position, then normal
/// (zeros when the reference is absent or zero), then texture
/// coordinates (same rule).
pub open spec fn point_stream(m: MeshV, p: PointV) -> Seq<int> {
    let pos = m.vertexes[p.vertex_index];
    let nrm = if p.normal_index > 0 {
        m.normals[p.normal_index]
    } else {
        Vec3V { x: 0, y: 0, z: 0 }
    };
    let tex = if p.texture_coordinate_index > 0 {
        m.texture_coordinates[p.texture_coordinate_index]
    } else {
        Tex2V { u: 0, v: 0 }
    };
    seq![pos.x, pos.y, pos.z, nrm.x, nrm.y, nrm.z, tex.u, tex.v]
}

/// Only the first three points of a face reach the buffer.
pub open spec fn face_stream(m: MeshV, f: Seq<PointV>) -> Seq<int> {
    point_stream(m, f[0]) + point_stream(m, f[1]) + point_stream(m, f[2])
}

pub open spec fn faces_stream(m: MeshV, fs: Seq<Seq<PointV>>) -> Seq<int>
    decreases fs.len(),
{
    if fs.len() == 0 {
        Seq::empty()
    } else {
        faces_stream(m, fs.drop_last()) + face_stream(m, fs.last())
    }
}

pub open spec fn surfaces_stream(m: MeshV, ss: Seq<SurfaceV>) -> Seq<int>
    decreases ss.len(),
{
    if ss.len() == 0 {
        Seq::empty()
    } else {
        surfaces_stream(m, ss.drop_last()) + faces_stream(m, ss.last().faces)
    }
}

pub open spec fn groups_stream(m: MeshV, gs: Seq<GroupV>) -> Seq<int>
    decreases gs.len(),
{
    if gs.len() == 0 {
        Seq::empty()
    } else {
        groups_stream(m, gs.drop_last()) + surfaces_stream(m, gs.last().surfaces)
    }
}

pub open spec fn objects_stream(m: MeshV, os: Seq<ObjectV>) -> Seq<int>
    decreases os.len(),
{
    if os.len() == 0 {
        Seq::empty()
    } else {
        objects_stream(m, os.drop_last()) + groups_stream(m, os.last().groups)
    }
}

/// The whole interleaved vertex buffer, in document order.
pub open spec fn vertex_array_spec(m: MeshV) -> Seq<int> {
    objects_stream(m, m.objects)
}

// ---------------------------------------------------------------------
// The draw-chunk list
// ---------------------------------------------------------------------

pub open spec fn faces_info(fs: Seq<Seq<PointV>>, mat: int) -> Seq<(int, int)>
    decreases fs.len(),
{
    if fs.len() == 0 {
        Seq::empty()
    } else {
        faces_info(fs.drop_last(), mat).push((fs.last().len() as int, mat))
    }
}

pub open spec fn surfaces_info(ss: Seq<SurfaceV>) -> Seq<(int, int)>
    decreases ss.len(),
{
    if ss.len() == 0 {
        Seq::empty()
    } else {
        surfaces_info(ss.drop_last()) + faces_info(ss.last().faces, ss.last().material_index)
    }
}

pub open spec fn groups_info(gs: Seq<GroupV>) -> Seq<(int, int)>
    decreases gs.len(),
{
    if gs.len() == 0 {
        Seq::empty()
    } else {
        groups_info(gs.drop_last()) + surfaces_info(gs.last().surfaces)
    }
}

pub open spec fn objects_info(os: Seq<ObjectV>) -> Seq<(int, int)>
    decreases os.len(),
{
    if os.len() == 0 {
        Seq::empty()
    } else {
        objects_info(os.drop_last()) + groups_info(os.last().groups)
    }
}

/// One `(point count, material index)` pair per face, in the same
/// document order as the flattened buffer.
pub open spec fn surface_info_spec(m: MeshV) -> Seq<(int, int)> {
    objects_info(m.objects)
}

pub open spec fn pairs_view(s: Seq<(i32, i32)>) -> Seq<(int, int)> {
    s.map_values(|p: (i32, i32)| (p.0 as int, p.1 as int))
}

// ---------------------------------------------------------------------
// Face-count bounds (so the draw-chunk counts fit an i32)
// ---------------------------------------------------------------------

pub open spec fn surface_counts_ok(s: SurfaceV) -> bool {
    forall|l: int| 0 <= l < s.faces.len() ==> (#[trigger] s.faces[l]).len() <= i32::MAX as int
}

pub open spec fn group_counts_ok(g: GroupV) -> bool {
    forall|k: int| 0 <= k < g.surfaces.len() ==> surface_counts_ok(#[trigger] g.surfaces[k])
}

pub open spec fn object_counts_ok(o: ObjectV) -> bool {
    forall|j: int| 0 <= j < o.groups.len() ==> group_counts_ok(#[trigger] o.groups[j])
}

/// Every face's point count fits an i32.
pub open spec fn counts_ok(m: MeshV) -> bool {
    forall|i: int| 0 <= i < m.objects.len() ==> object_counts_ok(#[trigger] m.objects[i])
}

// ---------------------------------------------------------------------
// Flattening
// ---------------------------------------------------------------------

impl Mesh {
    #[verifier::loop_isolation(false)]
    fn push_point(&self, p: &Point, buf: &mut Vec<Scalar>)
        requires
            wf_point(self@, p@),
        ensures
            final(buf).deep_view() == old(buf).deep_view() + point_stream(self@, p@),
    {
        let ghost b0 = buf.deep_view();
        let vi = p.vertex_index as usize;
        proof {
            assert(self.vertexes.deep_view()[vi as int] == self.vertexes@[vi as int]@);
        }
        let v = &self.vertexes[vi];
        buf.push(v.x);
        buf.push(v.y);
        buf.push(v.z);
        if p.normal_index > 0 {
            let ni = p.normal_index as usize;
            proof {
                assert(self.normals.deep_view()[ni as int] == self.normals@[ni as int]@);
            }
            let nv = &self.normals[ni];
            buf.push(nv.x);
            buf.push(nv.y);
            buf.push(nv.z);
        } else {
            buf.push(Scalar::zero());
            buf.push(Scalar::zero());
            buf.push(Scalar::zero());
        }
        if p.texture_coordinate_index > 0 {
            let ti = p.texture_coordinate_index as usize;
            proof {
                assert(self.texture_coordinates.deep_view()[ti as int]
                    == self.texture_coordinates@[ti as int]@);
            }
            let tv = &self.texture_coordinates[ti];
            buf.push(tv.u);
            buf.push(tv.v);
        } else {
            buf.push(Scalar::zero());
            buf.push(Scalar::zero());
        }
        proof {
            assert(buf.deep_view() =~= b0 + point_stream(self@, p@));
        }
    }

    #[verifier::loop_isolation(false)]
    fn push_face(&self, f: &Face, buf: &mut Vec<Scalar>)
        requires
            face_ok(self@, f@),
        ensures
            final(buf).deep_view() == old(buf).deep_view() + face_stream(self@, f@),
    {
        let ghost b0 = buf.deep_view();
        proof {
            assert(f@[0] == f.points@[0]@);
            assert(f@[1] == f.points@[1]@);
            assert(f@[2] == f.points@[2]@);
        }
        self.push_point(&f.points[0], buf);
        self.push_point(&f.points[1], buf);
        self.push_point(&f.points[2], buf);
        proof {
            assert(buf.deep_view() =~= b0 + face_stream(self@, f@));
        }
    }

    #[verifier::loop_isolation(false)]
    fn push_surface(&self, s: &Surface, buf: &mut Vec<Scalar>)
        requires
            surface_ok(self@, s@),
        ensures
            final(buf).deep_view() == old(buf).deep_view() + faces_stream(self@, s@.faces),
    {
        let ghost b0 = buf.deep_view();
        let mut l: usize = 0;
        while l < s.faces.len()
            invariant
                0 <= l <= s.faces.len(),
                buf.deep_view() == b0 + faces_stream(self@, s@.faces.take(l as int)),
            decreases s.faces.len() - l,
        {
            proof {
                assert(s@.faces[l as int] == s.faces@[l as int]@);
                assert(s@.faces.take(l + 1).drop_last() =~= s@.faces.take(l as int));
                assert(s@.faces.take(l + 1).last() == s@.faces[l as int]);
            }
            self.push_face(&s.faces[l], buf);
            l = l + 1;
        }
        proof {
            assert(s@.faces.take(s@.faces.len() as int) =~= s@.faces);
        }
    }

    #[verifier::loop_isolation(false)]
    fn push_group(&self, g: &Group, buf: &mut Vec<Scalar>)
        requires
            group_ok(self@, g@),
        ensures
            final(buf).deep_view() == old(buf).deep_view() + surfaces_stream(self@, g@.surfaces),
    {
        let ghost b0 = buf.deep_view();
        let mut k: usize = 0;
        while k < g.surfaces.len()
            invariant
                0 <= k <= g.surfaces.len(),
                buf.deep_view() == b0 + surfaces_stream(self@, g@.surfaces.take(k as int)),
            decreases g.surfaces.len() - k,
        {
            proof {
                assert(g@.surfaces[k as int] == g.surfaces@[k as int]@);
                assert(g@.surfaces.take(k + 1).drop_last() =~= g@.surfaces.take(k as int));
                assert(g@.surfaces.take(k + 1).last() == g@.surfaces[k as int]);
            }
            self.push_surface(&g.surfaces[k], buf);
            k = k + 1;
        }
        proof {
            assert(g@.surfaces.take(g@.surfaces.len() as int) =~= g@.surfaces);
        }
    }

    #[verifier::loop_isolation(false)]
    fn push_object(&self, o: &Object, buf: &mut Vec<Scalar>)
        requires
            object_ok(self@, o@),
        ensures
            final(buf).deep_view() == old(buf).deep_view() + groups_stream(self@, o@.groups),
    {
        let ghost b0 = buf.deep_view();
        let mut j: usize = 0;
        while j < o.groups.len()
            invariant
                0 <= j <= o.groups.len(),
                buf.deep_view() == b0 + groups_stream(self@, o@.groups.take(j as int)),
            decreases o.groups.len() - j,
        {
            proof {
                assert(o@.groups[j as int] == o.groups@[j as int]@);
                assert(o@.groups.take(j + 1).drop_last() =~= o@.groups.take(j as int));
                assert(o@.groups.take(j + 1).last() == o@.groups[j as int]);
            }
            self.push_group(&o.groups[j], buf);
            j = j + 1;
        }
        proof {
            assert(o@.groups.take(o@.groups.len() as int) =~= o@.groups);
        }
    }

    /// Flatten the mesh into one interleaved
    /// position(3)/normal(3)/texture(2) stream, in document order,
    /// taking only the first three points of each face.
    #[verifier::loop_isolation(false)]
    pub fn get_vertex_array(&self) -> (r: Vec<Scalar>)
        requires
            renderable(self@),
        ensures
            r.deep_view() == vertex_array_spec(self@),
    {
        let mut buf: Vec<Scalar> = Vec::new();
        proof {
            assert(buf.deep_view() =~= Seq::<int>::empty());
        }
        let mut i: usize = 0;
        while i < self.objects.len()
            invariant
                0 <= i <= self.objects.len(),
                buf.deep_view() == objects_stream(self@, self@.objects.take(i as int)),
            decreases self.objects.len() - i,
        {
            proof {
                assert(self@.objects[i as int] == self.objects@[i as int]@);
                assert(self@.objects.take(i + 1).drop_last() =~= self@.objects.take(i as int));
                assert(self@.objects.take(i + 1).last() == self@.objects[i as int]);
            }
            self.push_object(&self.objects[i], &mut buf);
            i = i + 1;
        }
        proof {
            assert(self@.objects.take(self@.objects.len() as int) =~= self@.objects);
        }
        buf
    }

    /// Whether every face of this mesh can be flattened; callers test
    /// this before `get_vertex_array`.
    #[verifier::loop_isolation(false)]
    pub fn can_render(&self) -> (r: bool)
        ensures
            r == renderable(self@),
    {
        let mut i: usize = 0;
        while i < self.objects.len()
            invariant
                0 <= i <= self.objects.len(),
                forall|ii: int| 0 <= ii < i ==> object_ok(self@, #[trigger] self@.objects[ii]),
            decreases self.objects.len() - i,
        {
            proof {
                assert(self@.objects[i as int] == self.objects@[i as int]@);
            }
            if !self.check_object(&self.objects[i]) {
                return false;
            }
            i = i + 1;
        }
        true
    }

    #[verifier::loop_isolation(false)]
    fn check_object(&self, o: &Object) -> (r: bool)
        ensures
            r == object_ok(self@, o@),
    {
        let mut j: usize = 0;
        while j < o.groups.len()
            invariant
                0 <= j <= o.groups.len(),
                forall|jj: int| 0 <= jj < j ==> group_ok(self@, #[trigger] o@.groups[jj]),
            decreases o.groups.len() - j,
        {
            proof {
                assert(o@.groups[j as int] == o.groups@[j as int]@);
            }
            if !self.check_group(&o.groups[j]) {
                return false;
            }
            j = j + 1;
        }
        true
    }

    #[verifier::loop_isolation(false)]
    fn check_group(&self, g: &Group) -> (r: bool)
        ensures
            r == group_ok(self@, g@),
    {
        let mut k: usize = 0;
        while k < g.surfaces.len()
            invariant
                0 <= k <= g.surfaces.len(),
                forall|kk: int| 0 <= kk < k ==> surface_ok(self@, #[trigger] g@.surfaces[kk]),
            decreases g.surfaces.len() - k,
        {
            proof {
                assert(g@.surfaces[k as int] == g.surfaces@[k as int]@);
            }
            if !self.check_surface(&g.surfaces[k]) {
                return false;
            }
            k = k + 1;
        }
        true
    }

    #[verifier::loop_isolation(false)]
    fn check_surface(&self, s: &Surface) -> (r: bool)
        ensures
            r == surface_ok(self@, s@),
    {
        let mut l: usize = 0;
        while l < s.faces.len()
            invariant
                0 <= l <= s.faces.len(),
                forall|ll: int| 0 <= ll < l ==> face_ok(self@, #[trigger] s@.faces[ll]),
            decreases s.faces.len() - l,
        {
            proof {
                assert(s@.faces[l as int] == s.faces@[l as int]@);
            }
            if !self.check_face(&s.faces[l]) {
                return false;
            }
            l = l + 1;
        }
        true
    }

    fn check_face(&self, f: &Face) -> (r: bool)
        ensures
            r == face_ok(self@, f@),
    {
        if f.points.len() < 3 {
            return false;
        }
        proof {
            assert(f@[0] == f.points@[0]@);
            assert(f@[1] == f.points@[1]@);
            assert(f@[2] == f.points@[2]@);
        }
        self.check_point(&f.points[0]) && self.check_point(&f.points[1]) && self.check_point(
            &f.points[2],
        )
    }

    fn check_point(&self, p: &Point) -> (r: bool)
        ensures
            r == wf_point(self@, p@),
    {
        p.vertex_index >= 0 && (p.vertex_index as usize) < self.vertexes.len() && (p.normal_index
            <= 0 || (p.normal_index as usize) < self.normals.len()) && (p.texture_coordinate_index
            <= 0 || (p.texture_coordinate_index as usize) < self.texture_coordinates.len())
    }

    // -----------------------------------------------------------------
    // Draw chunks
    // -----------------------------------------------------------------

    /// One `(point count, material index)` pair per face, in document
    /// order; callers test `counts_fit` first.
    #[verifier::loop_isolation(false)]
    pub fn get_surface_info(&self) -> (r: Vec<(i32, i32)>)
        requires
            counts_ok(self@),
        ensures
            pairs_view(r@) == surface_info_spec(self@),
    {
        let mut out: Vec<(i32, i32)> = Vec::new();
        proof {
            assert(pairs_view(out@) =~= Seq::<(int, int)>::empty());
        }
        let mut i: usize = 0;
        while i < self.objects.len()
            invariant
                0 <= i <= self.objects.len(),
                pairs_view(out@) == objects_info(self@.objects.take(i as int)),
            decreases self.objects.len() - i,
        {
            proof {
                assert(self@.objects[i as int] == self.objects@[i as int]@);
                assert(self@.objects.take(i + 1).drop_last() =~= self@.objects.take(i as int));
                assert(self@.objects.take(i + 1).last() == self@.objects[i as int]);
            }
            info_object(&self.objects[i], &mut out);
            i = i + 1;
        }
        proof {
            assert(self@.objects.take(self@.objects.len() as int) =~= self@.objects);
        }
        out
    }

    /// Whether every face's point count fits the draw-chunk type;
    /// callers test this before `get_surface_info`.
    #[verifier::loop_isolation(false)]
    pub fn counts_fit(&self) -> (r: bool)
        ensures
            r == counts_ok(self@),
    {
        let mut i: usize = 0;
        while i < self.objects.len()
            invariant
                0 <= i <= self.objects.len(),
                forall|ii: int|
                    0 <= ii < i ==> object_counts_ok(#[trigger] self@.objects[ii]),
            decreases self.objects.len() - i,
        {
            proof {
                assert(self@.objects[i as int] == self.objects@[i as int]@);
            }
            if !counts_object(&self.objects[i]) {
                return false;
            }
            i = i + 1;
        }
        true
    }

    /// The material at `material_index`; indices come from this mesh's
    /// own surfaces.
    pub fn get_matrial(&self, material_index: i32) -> (r: &Material)
        requires
            0 <= material_index && (material_index as int) < self@.materials.len(),
        ensures
            r@ == self@.materials[material_index as int],
    {
        proof {
            assert(self.materials.deep_view()[material_index as int]
                == self.materials@[material_index as int]@);
        }
        &self.materials[material_index as usize]
    }
}

#[verifier::loop_isolation(false)]
fn info_surface(s: &Surface, out: &mut Vec<(i32, i32)>)
    requires
        surface_counts_ok(s@),
    ensures
        pairs_view(final(out)@) == pairs_view(old(out)@) + faces_info(
            s@.faces,
            s@.material_index,
        ),
{
    let ghost b0 = pairs_view(out@);
    let mut l: usize = 0;
    while l < s.faces.len()
        invariant
            0 <= l <= s.faces.len(),
            pairs_view(out@) == b0 + faces_info(s@.faces.take(l as int), s@.material_index),
        decreases s.faces.len() - l,
    {
        proof {
            assert(s@.faces[l as int] == s.faces@[l as int]@);
            assert(s@.faces.take(l + 1).drop_last() =~= s@.faces.take(l as int));
            assert(s@.faces.take(l + 1).last() == s@.faces[l as int]);
        }
        let n = s.faces[l].points.len();
        let ghost before = out@;
        out.push((n as i32, s.material_index));
        proof {
            assert(pairs_view(out@) =~= pairs_view(before).push((n as int, s@.material_index)));
        }
        l = l + 1;
    }
    proof {
        assert(s@.faces.take(s@.faces.len() as int) =~= s@.faces);
    }
}

#[verifier::loop_isolation(false)]
fn info_group(g: &Group, out: &mut Vec<(i32, i32)>)
    requires
        group_counts_ok(g@),
    ensures
        pairs_view(final(out)@) == pairs_view(old(out)@) + surfaces_info(g@.surfaces),
{
    let ghost b0 = pairs_view(out@);
    let mut k: usize = 0;
    while k < g.surfaces.len()
        invariant
            0 <= k <= g.surfaces.len(),
            pairs_view(out@) == b0 + surfaces_info(g@.surfaces.take(k as int)),
        decreases g.surfaces.len() - k,
    {
        proof {
            assert(g@.surfaces[k as int] == g.surfaces@[k as int]@);
            assert(g@.surfaces.take(k + 1).drop_last() =~= g@.surfaces.take(k as int));
            assert(g@.surfaces.take(k + 1).last() == g@.surfaces[k as int]);
        }
        info_surface(&g.surfaces[k], out);
        k = k + 1;
    }
    proof {
        assert(g@.surfaces.take(g@.surfaces.len() as int) =~= g@.surfaces);
    }
}

#[verifier::loop_isolation(false)]
fn info_object(o: &Object, out: &mut Vec<(i32, i32)>)
    requires
        object_counts_ok(o@),
    ensures
        pairs_view(final(out)@) == pairs_view(old(out)@) + groups_info(o@.groups),
{
    let ghost b0 = pairs_view(out@);
    let mut j: usize = 0;
    while j < o.groups.len()
        invariant
            0 <= j <= o.groups.len(),
            pairs_view(out@) == b0 + groups_info(o@.groups.take(j as int)),
        decreases o.groups.len() - j,
    {
        proof {
            assert(o@.groups[j as int] == o.groups@[j as int]@);
            assert(o@.groups.take(j + 1).drop_last() =~= o@.groups.take(j as int));
            assert(o@.groups.take(j + 1).last() == o@.groups[j as int]);
        }
        info_group(&o.groups[j], out);
        j = j + 1;
    }
    proof {
        assert(o@.groups.take(o@.groups.len() as int) =~= o@.groups);
    }
}

#[verifier::loop_isolation(false)]
fn counts_surface(s: &Surface) -> (r: bool)
    ensures
        r == surface_counts_ok(s@),
{
    let mut l: usize = 0;
    while l < s.faces.len()
        invariant
            0 <= l <= s.faces.len(),
            forall|ll: int|
                0 <= ll < l ==> (#[trigger] s@.faces[ll]).len() <= i32::MAX as int,
        decreases s.faces.len() - l,
    {
        proof {
            assert(s@.faces[l as int] == s.faces@[l as int]@);
        }
        if s.faces[l].points.len() > i32::MAX as usize {
            return false;
        }
        l = l + 1;
    }
    true
}

#[verifier::loop_isolation(false)]
fn counts_group(g: &Group) -> (r: bool)
    ensures
        r == group_counts_ok(g@),
{
    let mut k: usize = 0;
    while k < g.surfaces.len()
        invariant
            0 <= k <= g.surfaces.len(),
            forall|kk: int| 0 <= kk < k ==> surface_counts_ok(#[trigger] g@.surfaces[kk]),
        decreases g.surfaces.len() - k,
    {
        proof {
            assert(g@.surfaces[k as int] == g.surfaces@[k as int]@);
        }
        if !counts_surface(&g.surfaces[k]) {
            return false;
        }
        k = k + 1;
    }
    true
}

#[verifier::loop_isolation(false)]
fn counts_object(o: &Object) -> (r: bool)
    ensures
        r == object_counts_ok(o@),
{
    let mut j: usize = 0;
    while j < o.groups.len()
        invariant
            0 <= j <= o.groups.len(),
            forall|jj: int| 0 <= jj < j ==> group_counts_ok(#[trigger] o@.groups[jj]),
        decreases o.groups.len() - j,
    {
        proof {
            assert(o@.groups[j as int] == o.groups@[j as int]@);
        }
        if !counts_group(&o.groups[j]) {
            return false;
        }
        j = j + 1;
    }
    true
}

} // verus!
