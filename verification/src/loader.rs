//! The geometry document parser: a resumable state machine fed one
//! line at a time.  When a line names a material catalogue, the caller
//! reads that file, parses it with [`crate::mtl::parse_mtl`], and hands
//! the materials back before feeding the next line.  Every transition
//! is specified by [`geom_line_step`] and proved.

use vstd::prelude::*;

use crate::error::ErrV;
use crate::error::ParseError;
use crate::model::empty_group;
use crate::model::empty_mesh;
use crate::model::empty_object;
use crate::model::empty_surface;
use crate::model::Face;
use crate::model::Group;
use crate::model::GroupV;
use crate::model::Material;
use crate::model::MaterialV;
use crate::model::Mesh;
use crate::model::MeshV;
use crate::model::Object;
use crate::model::ObjectV;
use crate::model::Point;
use crate::model::PointV;
use crate::model::Surface;
use crate::model::SurfaceV;
use crate::model::Tex2V;
use crate::model::Texture2D;
use crate::model::Vecter3D;
use crate::mtl::vec3_of_tokens;
use crate::scalar::clamp_i64;
use crate::scalar::parse_int_spec;
use crate::scalar::parse_integer;
use crate::scalar::parse_number;
use crate::scalar::parse_scalar_spec;
use crate::scalar::SCALE;
use crate::text::skippable;
use crate::text::split_char;
use crate::text::split_on;
use crate::text::str_eq;
use crate::text::tokenize;
use crate::text::tokens_of;
use crate::text::tokens_skippable;

verus! {

// ---------------------------------------------------------------------
// Abstract state and transitions
// ---------------------------------------------------------------------

/// What the caller must do after a line is accepted.
pub enum ActionV {
    /// Feed the next line.
    Proceed,
    /// Parse the named material catalogue and hand its materials back
    /// before feeding the next line.
    LoadMtl { filename: Seq<char> },
}

/// The loader's abstract state between lines.
#[verifier::ext_equal]
pub struct LoaderV {
    /// The geometry file's name, carried for error reporting.
    pub filename: Seq<char>,
    /// 1-based number of the last line fed.
    pub line_num: int,
    /// A material catalogue was requested and not yet delivered.
    pub pending: bool,
    /// The mesh under construction.
    pub mesh: MeshV,
    /// The open object, group and surface accumulators.
    pub obj: ObjectV,
    pub grp: GroupV,
    pub surf: SurfaceV,
}

/// The state before any line has been fed.
pub open spec fn loader_init(filename: Seq<char>) -> LoaderV {
    LoaderV {
        filename: filename,
        line_num: 0,
        pending: false,
        mesh: empty_mesh(),
        obj: empty_object(),
        grp: empty_group(),
        surf: empty_surface(),
    }
}

/// One-based document references become zero-based indices; the one
/// unrepresentable decrement saturates.
pub open spec fn dec_index(v: int) -> int {
    if v == i32::MIN as int {
        i32::MIN as int
    } else {
        v - 1
    }
}

/// One face argument `v[/t[/n]]` parsed into a point; sub-tokens are
/// read in vertex, texture, normal order, and a missing sub-token
/// records the absent reference -1.
pub open spec fn point_of_arg(arg: Seq<char>, ln: int) -> Result<PointV, ErrV> {
    let subs = split_char(arg, '/');
    match parse_int_spec(subs[0]) {
        None => Err(ErrV::Numeric { line: ln, token: subs[0] }),
        Some(v) => if subs.len() > 1 {
            match parse_int_spec(subs[1]) {
                None => Err(ErrV::Numeric { line: ln, token: subs[1] }),
                Some(t) => if subs.len() > 2 {
                    match parse_int_spec(subs[2]) {
                        None => Err(ErrV::Numeric { line: ln, token: subs[2] }),
                        Some(nn) => Ok(
                            PointV {
                                vertex_index: dec_index(v),
                                normal_index: dec_index(nn),
                                texture_coordinate_index: dec_index(t),
                            },
                        ),
                    }
                } else {
                    Ok(
                        PointV {
                            vertex_index: dec_index(v),
                            normal_index: -1,
                            texture_coordinate_index: dec_index(t),
                        },
                    )
                },
            }
        } else {
            Ok(
                PointV {
                    vertex_index: dec_index(v),
                    normal_index: -1,
                    texture_coordinate_index: -1,
                },
            )
        },
    }
}

/// The points of a face line's arguments from `i` on, appended to
/// `acc`; the first failure wins.
pub open spec fn points_of_args(
    args: Seq<Seq<char>>,
    i: int,
    acc: Seq<PointV>,
    ln: int,
) -> Result<Seq<PointV>, ErrV>
    decreases args.len() - i,
{
    if i < 0 || i >= args.len() {
        Ok(acc)
    } else {
        match point_of_arg(args[i], ln) {
            Err(e) => Err(e),
            Ok(p) => points_of_args(args, i + 1, acc.push(p), ln),
        }
    }
}

/// Index of the first material with the given name, or -1.
pub open spec fn find_material(mats: Seq<MaterialV>, name: Seq<char>) -> int
    decreases mats.len(),
{
    if mats.len() == 0 {
        -1
    } else if mats[0].material_name == name {
        0
    } else if find_material(mats.drop_first(), name) < 0 {
        -1
    } else {
        find_material(mats.drop_first(), name) + 1
    }
}

pub proof fn lemma_find_material_at(mats: Seq<MaterialV>, name: Seq<char>, j: int)
    requires
        0 <= j < mats.len(),
        mats[j].material_name == name,
        forall|k: int| 0 <= k < j ==> #[trigger] mats[k].material_name != name,
    ensures
        find_material(mats, name) == j,
    decreases j,
{
    if j > 0 {
        lemma_find_material_at(mats.drop_first(), name, j - 1);
    }
}

pub proof fn lemma_find_material_none(mats: Seq<MaterialV>, name: Seq<char>)
    requires
        forall|k: int| 0 <= k < mats.len() ==> #[trigger] mats[k].material_name != name,
    ensures
        find_material(mats, name) == -1,
    decreases mats.len(),
{
    if mats.len() > 0 {
        lemma_find_material_none(mats.drop_first(), name);
    }
}

/// What feeding one line does: the new state and the action, or the
/// failure that aborts the whole load.
pub open spec fn geom_line_step(st: LoaderV, line: Seq<char>) -> Result<(LoaderV, ActionV), ErrV> {
    let ln = st.line_num + 1;
    let st1 = LoaderV { line_num: ln, ..st };
    if skippable(line) {
        Ok((st1, ActionV::Proceed))
    } else {
        let toks = tokens_of(line);
        let cmd = toks[0];
        let argc = toks.len() - 1;
        if cmd == "o"@ && argc == 1 {
            let st2 = if st1.obj.groups.len() > 0 {
                LoaderV {
                    mesh: MeshV { objects: st1.mesh.objects.push(st1.obj), ..st1.mesh },
                    obj: ObjectV { object_name: toks[1], groups: Seq::empty() },
                    ..st1
                }
            } else {
                LoaderV { obj: ObjectV { object_name: toks[1], ..st1.obj }, ..st1 }
            };
            Ok((st2, ActionV::Proceed))
        } else if cmd == "g"@ && argc == 1 {
            let g1 = if st1.surf.faces.len() > 0 {
                GroupV { surfaces: st1.grp.surfaces.push(st1.surf), ..st1.grp }
            } else {
                st1.grp
            };
            let s1 = if st1.surf.faces.len() > 0 {
                empty_surface()
            } else {
                st1.surf
            };
            let o1 = if g1.surfaces.len() > 0 {
                ObjectV { groups: st1.obj.groups.push(g1), ..st1.obj }
            } else {
                st1.obj
            };
            Ok(
                (
                    LoaderV {
                        obj: o1,
                        grp: GroupV { group_name: toks[1], surfaces: Seq::empty() },
                        surf: s1,
                        ..st1
                    },
                    ActionV::Proceed,
                ),
            )
        } else if cmd == "mtllib"@ && argc == 1 {
            Ok((LoaderV { pending: true, ..st1 }, ActionV::LoadMtl { filename: toks[1] }))
        } else if cmd == "usemtl"@ && argc == 1 {
            let g1 = if st1.surf.faces.len() > 0 {
                GroupV { surfaces: st1.grp.surfaces.push(st1.surf), ..st1.grp }
            } else {
                st1.grp
            };
            let s1 = SurfaceV {
                material_index: find_material(st1.mesh.materials, toks[1]),
                faces: Seq::empty(),
            };
            Ok((LoaderV { grp: g1, surf: s1, ..st1 }, ActionV::Proceed))
        } else if cmd == "v"@ && argc == 3 {
            match vec3_of_tokens(toks[1], toks[2], toks[3], ln) {
                Err(e) => Err(e),
                Ok(v) => Ok(
                    (
                        LoaderV {
                            mesh: MeshV { vertexes: st1.mesh.vertexes.push(v), ..st1.mesh },
                            ..st1
                        },
                        ActionV::Proceed,
                    ),
                ),
            }
        } else if cmd == "vt"@ && argc == 2 {
            match parse_scalar_spec(toks[1]) {
                None => Err(ErrV::Numeric { line: ln, token: toks[1] }),
                Some(u) => match parse_scalar_spec(toks[2]) {
                    None => Err(ErrV::Numeric { line: ln, token: toks[2] }),
                    Some(v) => Ok(
                        (
                            LoaderV {
                                mesh: MeshV {
                                    texture_coordinates: st1.mesh.texture_coordinates.push(
                                        Tex2V { u: u, v: clamp_i64(SCALE as int - v) },
                                    ),
                                    ..st1.mesh
                                },
                                ..st1
                            },
                            ActionV::Proceed,
                        ),
                    ),
                },
            }
        } else if cmd == "vn"@ && argc == 3 {
            match vec3_of_tokens(toks[1], toks[2], toks[3], ln) {
                Err(e) => Err(e),
                Ok(v) => Ok(
                    (
                        LoaderV {
                            mesh: MeshV { normals: st1.mesh.normals.push(v), ..st1.mesh },
                            ..st1
                        },
                        ActionV::Proceed,
                    ),
                ),
            }
        } else if cmd == "f"@ {
            if argc < 3 {
                Err(ErrV::TooFewPoints { line: ln })
            } else {
                match points_of_args(toks.drop_first(), 0, Seq::empty(), ln) {
                    Err(e) => Err(e),
                    Ok(ps) => Ok(
                        (
                            LoaderV {
                                surf: SurfaceV { faces: st1.surf.faces.push(ps), ..st1.surf },
                                ..st1
                            },
                            ActionV::Proceed,
                        ),
                    ),
                }
            }
        } else if cmd == "s"@ && argc == 1 {
            Ok((st1, ActionV::Proceed))
        } else {
            Err(ErrV::Format { filename: st.filename, line: ln, text: line })
        }
    }
}

/// The end-of-input flush: the open surface, group and object are
/// pushed inward, each only when non-empty, in that order.
pub open spec fn finish_spec(st: LoaderV) -> MeshV {
    let g1 = if st.surf.faces.len() > 0 {
        GroupV { surfaces: st.grp.surfaces.push(st.surf), ..st.grp }
    } else {
        st.grp
    };
    let o1 = if g1.surfaces.len() > 0 {
        ObjectV { groups: st.obj.groups.push(g1), ..st.obj }
    } else {
        st.obj
    };
    if o1.groups.len() > 0 {
        MeshV { objects: st.mesh.objects.push(o1), ..st.mesh }
    } else {
        st.mesh
    }
}

// ---------------------------------------------------------------------
// Executable loader
// ---------------------------------------------------------------------

/// What the caller must do after a line is accepted.
pub enum LineAction {
    Proceed,
    /// Parse this material catalogue and call `add_materials`.
    LoadMtl(String),
}

impl View for LineAction {
    type V = ActionV;

    open spec fn view(&self) -> ActionV {
        match self {
            LineAction::Proceed => ActionV::Proceed,
            LineAction::LoadMtl(f) => ActionV::LoadMtl { filename: f@ },
        }
    }
}

/// Index of the first material named `name`, or -1.
fn find_material_exec(mats: &Vec<Material>, name: &str) -> (r: i32)
    requires
        mats@.len() <= i32::MAX as int,
    ensures
        r as int == find_material(mats.deep_view(), name@),
{
    let mut i: usize = 0;
    while i < mats.len()
        invariant
            mats@.len() <= i32::MAX as int,
            0 <= i <= mats.len(),
            forall|k: int|
                0 <= k < i ==> #[trigger] mats.deep_view()[k].material_name != name@,
        decreases mats.len() - i,
    {
        proof {
            assert(mats.deep_view()[i as int] == mats@[i as int]@);
        }
        if str_eq(mats[i].material_name.as_str(), name) {
            proof {
                lemma_find_material_at(mats.deep_view(), name@, i as int);
            }
            return i as i32;
        }
        i = i + 1;
    }
    proof {
        lemma_find_material_none(mats.deep_view(), name@);
    }
    -1
}

/// Zero-base a one-based reference, saturating the one value whose
/// decrement does not fit.
fn dec_exec(v: i32) -> (r: i32)
    ensures
        r as int == dec_index(v as int),
{
    if v == i32::MIN {
        i32::MIN
    } else {
        v - 1
    }
}

/// The geometry parser.  Feed lines in order; deliver requested
/// material catalogues before the next line; then `finish`.
pub struct Loader {
    filename: String,
    line_num: i32,
    pending: Ghost<bool>,
    mesh: Mesh,
    obj: Object,
    grp: Group,
    surf: Surface,
}

impl View for Loader {
    type V = LoaderV;

    closed spec fn view(&self) -> LoaderV {
        LoaderV {
            filename: self.filename@,
            line_num: self.line_num as int,
            pending: self.pending@,
            mesh: self.mesh@,
            obj: self.obj@,
            grp: self.grp@,
            surf: self.surf@,
        }
    }
}

impl Loader {
    /// A loader for the named document, before any line is fed.
    pub fn new(filename: &str) -> (r: Loader)
        ensures
            r@ == loader_init(filename@),
    {
        let r = Loader {
            filename: filename.to_owned(),
            line_num: 0,
            pending: Ghost(false),
            mesh: Mesh::new(),
            obj: Object::new(),
            grp: Group::new(),
            surf: Surface::new(),
        };
        proof {
            assert(r@ =~~= loader_init(filename@));
        }
        r
    }

    /// Process one line of the document (errors abort the load).
    #[verifier::loop_isolation(false)]
    pub fn feed_line(&mut self, line: &str) -> (r: Result<LineAction, ParseError>)
        requires
            old(self)@.line_num < i32::MAX as int,
            !old(self)@.pending,
            old(self)@.mesh.materials.len() <= i32::MAX as int,
        ensures
            ({
                let step = geom_line_step(old(self)@, line@);
                match r {
                    Ok(a) => step matches Ok(p) && final(self)@ == p.0 && a@ == p.1,
                    Err(e) => step matches Err(ev) && e@ == ev,
                }
            }),
    {
        let ghost st0 = self@;
        self.line_num = self.line_num + 1;
        let ghost st1 = LoaderV { line_num: st0.line_num + 1, ..st0 };
        proof {
            assert(self@ == st1);
        }
        let ghost ln = st1.line_num;
        let toks = tokenize(line);
        proof {
            assert(forall|k: int|
                0 <= k < toks@.len() ==> #[trigger] toks@[k]@ == tokens_of(line@)[k]);
        }
        if tokens_skippable(&toks, Ghost(line@)) {
            return Ok(LineAction::Proceed);
        }
        let argc = toks.len() - 1;
        let cmd = &toks[0];
        if str_eq(cmd.as_str(), "o") && argc == 1 {
            if !self.obj.empty() {
                let mut fresh = Object::new();
                core::mem::swap(&mut self.obj, &mut fresh);
                self.mesh.objects.push(fresh);
                proof {
                    assert(self@.mesh.objects =~= st1.mesh.objects.push(st1.obj));
                    assert(self@.obj.groups =~= Seq::<GroupV>::empty());
                }
            }
            self.obj.object_name = toks[1].clone();
            Ok(LineAction::Proceed)
        } else if str_eq(cmd.as_str(), "g") && argc == 1 {
            if !self.surf.empty() {
                let mut fresh = Surface::new();
                core::mem::swap(&mut self.surf, &mut fresh);
                self.grp.surfaces.push(fresh);
                proof {
                    assert(self@.grp.surfaces =~= st1.grp.surfaces.push(st1.surf));
                }
            }
            if !self.grp.empty() {
                let mut fresh = Group::new();
                core::mem::swap(&mut self.grp, &mut fresh);
                self.obj.groups.push(fresh);
                proof {
                    let g1 = GroupV { surfaces: st1.grp.surfaces.push(st1.surf), ..st1.grp };
                    if st1.surf.faces.len() > 0 {
                        assert(self@.obj.groups =~= st1.obj.groups.push(g1));
                    } else {
                        assert(self@.obj.groups =~= st1.obj.groups.push(st1.grp));
                    }
                }
            } else {
                let mut fresh = Group::new();
                core::mem::swap(&mut self.grp, &mut fresh);
            }
            self.grp.group_name = toks[1].clone();
            proof {
                assert(self@.grp.surfaces =~= Seq::<SurfaceV>::empty());
            }
            Ok(LineAction::Proceed)
        } else if str_eq(cmd.as_str(), "mtllib") && argc == 1 {
            self.pending = Ghost(true);
            Ok(LineAction::LoadMtl(toks[1].clone()))
        } else if str_eq(cmd.as_str(), "usemtl") && argc == 1 {
            if !self.surf.empty() {
                let mut fresh = Surface::new();
                core::mem::swap(&mut self.surf, &mut fresh);
                self.grp.surfaces.push(fresh);
                proof {
                    assert(self@.grp.surfaces =~= st1.grp.surfaces.push(st1.surf));
                }
            } else {
                let mut fresh = Surface::new();
                core::mem::swap(&mut self.surf, &mut fresh);
            }
            self.surf.material_index = find_material_exec(&self.mesh.materials, toks[1].as_str());
            proof {
                assert(self@.surf.faces =~= Seq::<Seq<PointV>>::empty());
            }
            Ok(LineAction::Proceed)
        } else if str_eq(cmd.as_str(), "v") && argc == 3 {
            let x = match parse_number(toks[1].as_str(), self.line_num) {
                Ok(v) => v,
                Err(e) => return Err(e),
            };
            let y = match parse_number(toks[2].as_str(), self.line_num) {
                Ok(v) => v,
                Err(e) => return Err(e),
            };
            let z = match parse_number(toks[3].as_str(), self.line_num) {
                Ok(v) => v,
                Err(e) => return Err(e),
            };
            self.mesh.vertexes.push(Vecter3D { x, y, z });
            proof {
                assert(self@.mesh.vertexes =~= st1.mesh.vertexes.push(
                    crate::model::Vec3V { x: x@, y: y@, z: z@ },
                ));
            }
            Ok(LineAction::Proceed)
        } else if str_eq(cmd.as_str(), "vt") && argc == 2 {
            let u = match parse_number(toks[1].as_str(), self.line_num) {
                Ok(v) => v,
                Err(e) => return Err(e),
            };
            let v = match parse_number(toks[2].as_str(), self.line_num) {
                Ok(v) => v,
                Err(e) => return Err(e),
            };
            let flipped = v.one_minus();
            self.mesh.texture_coordinates.push(Texture2D { u, v: flipped });
            proof {
                assert(self@.mesh.texture_coordinates =~= st1.mesh.texture_coordinates.push(
                    Tex2V { u: u@, v: clamp_i64(SCALE as int - v@) },
                ));
            }
            Ok(LineAction::Proceed)
        } else if str_eq(cmd.as_str(), "vn") && argc == 3 {
            let x = match parse_number(toks[1].as_str(), self.line_num) {
                Ok(v) => v,
                Err(e) => return Err(e),
            };
            let y = match parse_number(toks[2].as_str(), self.line_num) {
                Ok(v) => v,
                Err(e) => return Err(e),
            };
            let z = match parse_number(toks[3].as_str(), self.line_num) {
                Ok(v) => v,
                Err(e) => return Err(e),
            };
            self.mesh.normals.push(Vecter3D { x, y, z });
            proof {
                assert(self@.mesh.normals =~= st1.mesh.normals.push(
                    crate::model::Vec3V { x: x@, y: y@, z: z@ },
                ));
            }
            Ok(LineAction::Proceed)
        } else if str_eq(cmd.as_str(), "f") {
            if argc < 3 {
                return Err(ParseError::TooFewPointsError { line: self.line_num });
            }
            let ghost args = tokens_of(line@).drop_first();
            let mut face = Face::new();
            let mut k: usize = 1;
            proof {
                assert(face@ =~= Seq::<PointV>::empty());
            }
            while k < toks.len()
                invariant
                    1 <= k <= toks@.len(),
                    toks.deep_view() == tokens_of(line@),
                    args == tokens_of(line@).drop_first(),
                    tokens_of(line@).len() == toks@.len(),
                    self@ == st1,
                    ln == st1.line_num,
                    self.line_num as int == ln,
                    points_of_args(args, 0, Seq::empty(), ln) == points_of_args(
                        args,
                        k - 1,
                        face@,
                        ln,
                    ),
                decreases toks@.len() - k,
            {
                proof {
                    assert(toks@[k as int]@ == tokens_of(line@)[k as int]);
                    assert(args[k - 1] == tokens_of(line@)[k as int]);
                }
                let subs = split_on(toks[k].as_str(), '/');
                proof {
                    assert(split_char(args[k - 1], '/').len() > 0);
                    assert(forall|j: int|
                        0 <= j < subs@.len() ==> #[trigger] subs@[j]@ == split_char(
                            args[k - 1],
                            '/',
                        )[j]);
                }
                let vi = match parse_integer(subs[0].as_str(), self.line_num) {
                    Ok(v) => v,
                    Err(e) => return Err(e),
                };
                let t_idx: i32 = if subs.len() > 1 {
                    let t = match parse_integer(subs[1].as_str(), self.line_num) {
                        Ok(v) => v,
                        Err(e) => {
                            proof {
                                assert(point_of_arg(args[k - 1], ln) == Err::<PointV, ErrV>(e@));
                                assert(points_of_args(args, k - 1, face@, ln) == Err::<
                                    Seq<PointV>,
                                    ErrV,
                                >(e@));
                            }
                            return Err(e);
                        },
                    };
                    dec_exec(t)
                } else {
                    -1
                };
                let n_idx: i32 = if subs.len() > 2 {
                    let nn = match parse_integer(subs[2].as_str(), self.line_num) {
                        Ok(v) => v,
                        Err(e) => {
                            proof {
                                assert(point_of_arg(args[k - 1], ln) == Err::<PointV, ErrV>(e@));
                                assert(points_of_args(args, k - 1, face@, ln) == Err::<
                                    Seq<PointV>,
                                    ErrV,
                                >(e@));
                            }
                            return Err(e);
                        },
                    };
                    dec_exec(nn)
                } else {
                    -1
                };
                let p = Point {
                    vertex_index: dec_exec(vi),
                    normal_index: n_idx,
                    texture_coordinate_index: t_idx,
                };
                let ghost face_before = face@;
                face.points.push(p);
                proof {
                    assert(point_of_arg(args[k - 1], ln) == Ok::<PointV, ErrV>(p@));
                    assert(face@ =~= face_before.push(p@));
                }
                k = k + 1;
            }
            proof {
                assert(points_of_args(args, k - 1, face@, ln) == Ok::<Seq<PointV>, ErrV>(face@));
            }
            let ghost surf_before = self@.surf;
            self.surf.faces.push(face);
            proof {
                assert(self@.surf.faces =~= surf_before.faces.push(
                    points_of_args(args, 0, Seq::empty(), ln)->Ok_0,
                ));
            }
            Ok(LineAction::Proceed)
        } else if str_eq(cmd.as_str(), "s") && argc == 1 {
            Ok(LineAction::Proceed)
        } else {
            Err(
                ParseError::FormatError {
                    filename: self.filename.clone(),
                    line: self.line_num,
                    text: line.to_owned(),
                },
            )
        }
    }

    /// Deliver the materials of a catalogue requested by the last line,
    /// appended to the mesh's material list in order.
    pub fn add_materials(&mut self, mats: Vec<Material>)
        requires
            old(self)@.pending,
        ensures
            final(self)@ == (LoaderV {
                pending: false,
                mesh: MeshV {
                    materials: old(self)@.mesh.materials + mats.deep_view(),
                    ..old(self)@.mesh
                },
                ..old(self)@
            }),
    {
        let ghost st0 = self@;
        let ghost add = mats.deep_view();
        let mut m = mats;
        self.mesh.materials.append(&mut m);
        self.pending = Ghost(false);
        proof {
            assert(self@.mesh.materials =~= st0.mesh.materials + add);
        }
    }

    /// End of input: flush the open accumulators and return the mesh.
    pub fn finish(self) -> (m: Mesh)
        requires
            !self@.pending,
        ensures
            m@ == finish_spec(self@),
    {
        let ghost st = self@;
        let Loader { filename: _, line_num: _, pending: _, mut mesh, mut obj, mut grp, surf } =
            self;
        if !surf.empty() {
            grp.surfaces.push(surf);
        }
        proof {
            let g1 = if st.surf.faces.len() > 0 {
                GroupV { surfaces: st.grp.surfaces.push(st.surf), ..st.grp }
            } else {
                st.grp
            };
            assert(grp@.surfaces =~= g1.surfaces);
            assert(grp@ == g1);
        }
        if !grp.empty() {
            obj.groups.push(grp);
            proof {
                let g1 = if st.surf.faces.len() > 0 {
                    GroupV { surfaces: st.grp.surfaces.push(st.surf), ..st.grp }
                } else {
                    st.grp
                };
                assert(obj@.groups =~= st.obj.groups.push(g1));
            }
        }
        if !obj.empty() {
            mesh.objects.push(obj);
            proof {
                let g1 = if st.surf.faces.len() > 0 {
                    GroupV { surfaces: st.grp.surfaces.push(st.surf), ..st.grp }
                } else {
                    st.grp
                };
                let o1 = if g1.surfaces.len() > 0 {
                    ObjectV { groups: st.obj.groups.push(g1), ..st.obj }
                } else {
                    st.obj
                };
                assert(mesh@.objects =~= st.mesh.objects.push(o1));
            }
        }
        proof {
            assert(mesh@ == finish_spec(st));
        }
        mesh
    }

    /// The number of the last line fed (for the caller's own checks).
    pub fn current_line(&self) -> (r: i32)
        ensures
            r as int == self@.line_num,
    {
        self.line_num
    }

    /// How many materials the mesh under construction holds.
    pub fn material_count(&self) -> (r: usize)
        ensures
            r as int == self@.mesh.materials.len(),
    {
        self.mesh.materials.len()
    }
}

} // verus!
