//! The mesh data model: vectors, texture coordinates, materials, and
//! the object/group/surface/face hierarchy, with their abstract views.

use vstd::prelude::*;

use crate::scalar::Scalar;

verus! {

// ---------------------------------------------------------------------
// Abstract views
// ---------------------------------------------------------------------

#[verifier::ext_equal]
pub struct Vec3V {
    pub x: int,
    pub y: int,
    pub z: int,
}

#[verifier::ext_equal]
pub struct Tex2V {
    pub u: int,
    pub v: int,
}

#[verifier::ext_equal]
pub struct MaterialV {
    pub material_name: Seq<char>,
    pub diffuse: Vec3V,
    pub ambient: Vec3V,
    pub specular: Vec3V,
    pub shininess: int,
    pub alpha: int,
    pub diffuse_filename: Seq<char>,
    pub ambient_filename: Seq<char>,
    pub specular_filename: Seq<char>,
    pub bumpmap_filename: Seq<char>,
}

#[verifier::ext_equal]
pub struct PointV {
    pub vertex_index: int,
    pub normal_index: int,
    pub texture_coordinate_index: int,
}

#[verifier::ext_equal]
pub struct SurfaceV {
    pub material_index: int,
    pub faces: Seq<Seq<PointV>>,
}

#[verifier::ext_equal]
pub struct GroupV {
    pub group_name: Seq<char>,
    pub surfaces: Seq<SurfaceV>,
}

#[verifier::ext_equal]
pub struct ObjectV {
    pub object_name: Seq<char>,
    pub groups: Seq<GroupV>,
}

#[verifier::ext_equal]
pub struct MeshV {
    pub mesh_name: Seq<char>,
    pub objects: Seq<ObjectV>,
    pub vertexes: Seq<Vec3V>,
    pub texture_coordinates: Seq<Tex2V>,
    pub normals: Seq<Vec3V>,
    pub materials: Seq<MaterialV>,
}

// ---------------------------------------------------------------------
// Concrete types
// ---------------------------------------------------------------------

/// A 3-component value: a position, a normal, or a colour.
#[derive(Debug, Clone, Copy, PartialEq, Eq)]
pub struct Vecter3D {
    pub x: Scalar,
    pub y: Scalar,
    pub z: Scalar,
}

impl View for Vecter3D {
    type V = Vec3V;

    open spec fn view(&self) -> Vec3V {
        Vec3V { x: self.x@, y: self.y@, z: self.z@ }
    }
}

impl DeepView for Vecter3D {
    type V = Vec3V;

    open spec fn deep_view(&self) -> Vec3V {
        self.view()
    }
}

impl Vecter3D {
    pub fn new() -> (r: Vecter3D)
        ensures
            r@ == (Vec3V { x: 0, y: 0, z: 0 }),
    {
        Vecter3D { x: Scalar::zero(), y: Scalar::zero(), z: Scalar::zero() }
    }
}

/// A 2-component texture coordinate.
#[derive(Debug, Clone, Copy, PartialEq, Eq)]
pub struct Texture2D {
    pub u: Scalar,
    pub v: Scalar,
}

impl View for Texture2D {
    type V = Tex2V;

    open spec fn view(&self) -> Tex2V {
        Tex2V { u: self.u@, v: self.v@ }
    }
}

impl DeepView for Texture2D {
    type V = Tex2V;

    open spec fn deep_view(&self) -> Tex2V {
        self.view()
    }
}

impl Texture2D {
    pub fn new() -> (r: Texture2D)
        ensures
            r@ == (Tex2V { u: 0, v: 0 }),
    {
        Texture2D { u: Scalar::zero(), v: Scalar::zero() }
    }
}

/// A named material: colour channels, shininess, alpha, and texture
/// map filenames (empty = unset).
#[derive(Debug, Clone, PartialEq, Eq)]
pub struct Material {
    pub material_name: String,
    pub diffuse: Vecter3D,
    pub ambient: Vecter3D,
    pub specular: Vecter3D,
    pub shininess: Scalar,
    pub alpha: Scalar,
    pub diffuse_filename: String,
    pub ambient_filename: String,
    pub specular_filename: String,
    pub bumpmap_filename: String,
}

impl View for Material {
    type V = MaterialV;

    open spec fn view(&self) -> MaterialV {
        MaterialV {
            material_name: self.material_name@,
            diffuse: self.diffuse@,
            ambient: self.ambient@,
            specular: self.specular@,
            shininess: self.shininess@,
            alpha: self.alpha@,
            diffuse_filename: self.diffuse_filename@,
            ambient_filename: self.ambient_filename@,
            specular_filename: self.specular_filename@,
            bumpmap_filename: self.bumpmap_filename@,
        }
    }
}

impl DeepView for Material {
    type V = MaterialV;

    open spec fn deep_view(&self) -> MaterialV {
        self.view()
    }
}

/// The view of a material with no fields set yet.
pub open spec fn empty_material() -> MaterialV {
    MaterialV {
        material_name: Seq::empty(),
        diffuse: Vec3V { x: 0, y: 0, z: 0 },
        ambient: Vec3V { x: 0, y: 0, z: 0 },
        specular: Vec3V { x: 0, y: 0, z: 0 },
        shininess: 0,
        alpha: 0,
        diffuse_filename: Seq::empty(),
        ambient_filename: Seq::empty(),
        specular_filename: Seq::empty(),
        bumpmap_filename: Seq::empty(),
    }
}

impl Material {
    pub fn new() -> (r: Material)
        ensures
            r@ == empty_material(),
    {
        let r = Material {
            material_name: String::new(),
            diffuse: Vecter3D::new(),
            ambient: Vecter3D::new(),
            specular: Vecter3D::new(),
            shininess: Scalar::zero(),
            alpha: Scalar::zero(),
            diffuse_filename: String::new(),
            ambient_filename: String::new(),
            specular_filename: String::new(),
            bumpmap_filename: String::new(),
        };
        proof {
            assert(r@.material_name =~= empty_material().material_name);
            assert(r@.diffuse_filename =~= empty_material().diffuse_filename);
            assert(r@.ambient_filename =~= empty_material().ambient_filename);
            assert(r@.specular_filename =~= empty_material().specular_filename);
            assert(r@.bumpmap_filename =~= empty_material().bumpmap_filename);
        }
        r
    }

    /// A material that has not been started: its name is still empty.
    pub fn empty(&self) -> (r: bool)
        ensures
            r == (self@.material_name.len() == 0),
    {
        self.material_name.as_str().unicode_len() == 0
    }
}

/// One corner of a face: zero-based references into the mesh's global
/// arrays; -1 records an absent reference.
#[derive(Debug, Clone, Copy, PartialEq, Eq, Structural)]
pub struct Point {
    pub vertex_index: i32,
    pub normal_index: i32,
    pub texture_coordinate_index: i32,
}

impl View for Point {
    type V = PointV;

    open spec fn view(&self) -> PointV {
        PointV {
            vertex_index: self.vertex_index as int,
            normal_index: self.normal_index as int,
            texture_coordinate_index: self.texture_coordinate_index as int,
        }
    }
}

impl DeepView for Point {
    type V = PointV;

    open spec fn deep_view(&self) -> PointV {
        self.view()
    }
}

impl Point {
    pub fn new() -> (r: Point)
        ensures
            r@ == (PointV { vertex_index: 0, normal_index: 0, texture_coordinate_index: 0 }),
    {
        Point { vertex_index: 0, normal_index: 0, texture_coordinate_index: 0 }
    }
}

/// An ordered run of three or more points, in document order.
#[derive(Debug, Clone, PartialEq, Eq)]
pub struct Face {
    pub points: Vec<Point>,
}

impl View for Face {
    type V = Seq<PointV>;

    open spec fn view(&self) -> Seq<PointV> {
        self.points.deep_view()
    }
}

impl DeepView for Face {
    type V = Seq<PointV>;

    open spec fn deep_view(&self) -> Seq<PointV> {
        self.view()
    }
}

impl Face {
    pub fn new() -> (r: Face)
        ensures
            r@ =~= Seq::<PointV>::empty(),
    {
        Face { points: Vec::new() }
    }

    pub fn empty(&self) -> (r: bool)
        ensures
            r == (self@.len() == 0),
    {
        self.points.len() == 0
    }
}

/// Faces sharing one resolved material; -1 = unresolved.
#[derive(Debug, Clone, PartialEq, Eq)]
pub struct Surface {
    pub material_index: i32,
    pub faces: Vec<Face>,
}

impl View for Surface {
    type V = SurfaceV;

    open spec fn view(&self) -> SurfaceV {
        SurfaceV { material_index: self.material_index as int, faces: self.faces.deep_view() }
    }
}

impl DeepView for Surface {
    type V = SurfaceV;

    open spec fn deep_view(&self) -> SurfaceV {
        self.view()
    }
}

/// The view of a surface with no faces and no resolved material.
pub open spec fn empty_surface() -> SurfaceV {
    SurfaceV { material_index: -1, faces: Seq::empty() }
}

impl Surface {
    pub fn new() -> (r: Surface)
        ensures
            r@ =~= empty_surface(),
    {
        Surface { material_index: -1, faces: Vec::new() }
    }

    pub fn empty(&self) -> (r: bool)
        ensures
            r == (self@.faces.len() == 0),
    {
        self.faces.len() == 0
    }
}

/// A named group of surfaces.
#[derive(Debug, Clone, PartialEq, Eq)]
pub struct Group {
    pub group_name: String,
    pub surfaces: Vec<Surface>,
}

impl View for Group {
    type V = GroupV;

    open spec fn view(&self) -> GroupV {
        GroupV { group_name: self.group_name@, surfaces: self.surfaces.deep_view() }
    }
}

impl DeepView for Group {
    type V = GroupV;

    open spec fn deep_view(&self) -> GroupV {
        self.view()
    }
}

/// The view of a group with no name and no surfaces.
pub open spec fn empty_group() -> GroupV {
    GroupV { group_name: Seq::empty(), surfaces: Seq::empty() }
}

impl Group {
    pub fn new() -> (r: Group)
        ensures
            r@ =~= empty_group(),
    {
        Group { group_name: String::new(), surfaces: Vec::new() }
    }

    pub fn empty(&self) -> (r: bool)
        ensures
            r == (self@.surfaces.len() == 0),
    {
        self.surfaces.len() == 0
    }
}

/// A named object: the top grouping level of the document.
#[derive(Debug, Clone, PartialEq, Eq)]
pub struct Object {
    pub object_name: String,
    pub groups: Vec<Group>,
}

impl View for Object {
    type V = ObjectV;

    open spec fn view(&self) -> ObjectV {
        ObjectV { object_name: self.object_name@, groups: self.groups.deep_view() }
    }
}

impl DeepView for Object {
    type V = ObjectV;

    open spec fn deep_view(&self) -> ObjectV {
        self.view()
    }
}

/// The view of an object with no name and no groups.
pub open spec fn empty_object() -> ObjectV {
    ObjectV { object_name: Seq::empty(), groups: Seq::empty() }
}

impl Object {
    pub fn new() -> (r: Object)
        ensures
            r@ =~= empty_object(),
    {
        Object { object_name: String::new(), groups: Vec::new() }
    }

    pub fn empty(&self) -> (r: bool)
        ensures
            r == (self@.groups.len() == 0),
    {
        self.groups.len() == 0
    }
}

/// The completed parse result: the hierarchy plus the global arrays.
#[derive(Debug, Clone, PartialEq, Eq)]
pub struct Mesh {
    pub mesh_name: String,
    pub objects: Vec<Object>,
    pub vertexes: Vec<Vecter3D>,
    pub texture_coordinates: Vec<Texture2D>,
    pub normals: Vec<Vecter3D>,
    pub materials: Vec<Material>,
}

impl View for Mesh {
    type V = MeshV;

    open spec fn view(&self) -> MeshV {
        MeshV {
            mesh_name: self.mesh_name@,
            objects: self.objects.deep_view(),
            vertexes: self.vertexes.deep_view(),
            texture_coordinates: self.texture_coordinates.deep_view(),
            normals: self.normals.deep_view(),
            materials: self.materials.deep_view(),
        }
    }
}

impl DeepView for Mesh {
    type V = MeshV;

    open spec fn deep_view(&self) -> MeshV {
        self.view()
    }
}

/// The view of a mesh with nothing in it.
pub open spec fn empty_mesh() -> MeshV {
    MeshV {
        mesh_name: Seq::empty(),
        objects: Seq::empty(),
        vertexes: Seq::empty(),
        texture_coordinates: Seq::empty(),
        normals: Seq::empty(),
        materials: Seq::empty(),
    }
}

impl Mesh {
    pub fn new() -> (r: Mesh)
        ensures
            r@ =~= empty_mesh(),
    {
        Mesh {
            mesh_name: String::new(),
            objects: Vec::new(),
            vertexes: Vec::new(),
            texture_coordinates: Vec::new(),
            normals: Vec::new(),
            materials: Vec::new(),
        }
    }

    pub fn empty(&self) -> (r: bool)
        ensures
            r == (self@.objects.len() == 0),
    {
        self.objects.len() == 0
    }
}

} // verus!
