//! Laws of the parser, stated over the abstract step function so that
//! what each directive does is on record, not only inside the step's
//! definition.

use vstd::prelude::*;

use crate::error::ErrV;
use crate::loader::dec_index;
use crate::loader::find_material;
use crate::loader::geom_line_step;
use crate::loader::lemma_find_material_none;
use crate::loader::point_of_arg;
use crate::loader::ActionV;
use crate::loader::LoaderV;
use crate::model::MeshV;
use crate::model::PointV;
use crate::model::SurfaceV;
use crate::model::Tex2V;
use crate::model::Vec3V;
use crate::scalar::clamp_i64;
use crate::scalar::parse_int_spec;
use crate::scalar::parse_scalar_spec;
use crate::scalar::SCALE;
use crate::text::skippable;
use crate::text::split_char;
use crate::text::tokens_of;

verus! {

proof fn reveal_directives()
    ensures
        "o"@ =~= seq!['o'],
        "g"@ =~= seq!['g'],
        "mtllib"@ =~= seq!['m', 't', 'l', 'l', 'i', 'b'],
        "usemtl"@ =~= seq!['u', 's', 'e', 'm', 't', 'l'],
        "v"@ =~= seq!['v'],
        "vt"@ =~= seq!['v', 't'],
        "vn"@ =~= seq!['v', 'n'],
        "f"@ =~= seq!['f'],
        "s"@ =~= seq!['s'],
{
    reveal_strlit("o");
    reveal_strlit("g");
    reveal_strlit("mtllib");
    reveal_strlit("usemtl");
    reveal_strlit("v");
    reveal_strlit("vt");
    reveal_strlit("vn");
    reveal_strlit("f");
    reveal_strlit("s");
}

/// A valid vertex declaration appends exactly the three parsed
/// coordinates to the vertex list and changes nothing else.
pub proof fn lemma_vertex_declaration(
    st: LoaderV,
    line: Seq<char>,
    a: Seq<char>,
    b: Seq<char>,
    c: Seq<char>,
    x: int,
    y: int,
    z: int,
)
    requires
        tokens_of(line) =~= seq!["v"@, a, b, c],
        parse_scalar_spec(a) == Some(x),
        parse_scalar_spec(b) == Some(y),
        parse_scalar_spec(c) == Some(z),
    ensures
        geom_line_step(st, line) == Ok::<(LoaderV, ActionV), ErrV>(
            (
                LoaderV {
                    line_num: st.line_num + 1,
                    mesh: MeshV {
                        vertexes: st.mesh.vertexes.push(Vec3V { x: x, y: y, z: z }),
                        ..st.mesh
                    },
                    ..st
                },
                ActionV::Proceed,
            ),
        ),
{
    reveal_directives();
    assert(!skippable(line));
}

/// A valid normal declaration appends exactly the three parsed
/// components to the normal list and changes nothing else.
pub proof fn lemma_normal_declaration(
    st: LoaderV,
    line: Seq<char>,
    a: Seq<char>,
    b: Seq<char>,
    c: Seq<char>,
    x: int,
    y: int,
    z: int,
)
    requires
        tokens_of(line) =~= seq!["vn"@, a, b, c],
        parse_scalar_spec(a) == Some(x),
        parse_scalar_spec(b) == Some(y),
        parse_scalar_spec(c) == Some(z),
    ensures
        geom_line_step(st, line) == Ok::<(LoaderV, ActionV), ErrV>(
            (
                LoaderV {
                    line_num: st.line_num + 1,
                    mesh: MeshV {
                        normals: st.mesh.normals.push(Vec3V { x: x, y: y, z: z }),
                        ..st.mesh
                    },
                    ..st
                },
                ActionV::Proceed,
            ),
        ),
{
    reveal_directives();
    assert(!skippable(line));
}

/// A texture coordinate is stored with `u` as parsed and `v` flipped
/// to one whole unit minus the parsed value (saturating).
pub proof fn lemma_texcoord_flip(
    st: LoaderV,
    line: Seq<char>,
    a: Seq<char>,
    b: Seq<char>,
    u: int,
    v: int,
)
    requires
        tokens_of(line) =~= seq!["vt"@, a, b],
        parse_scalar_spec(a) == Some(u),
        parse_scalar_spec(b) == Some(v),
    ensures
        geom_line_step(st, line) == Ok::<(LoaderV, ActionV), ErrV>(
            (
                LoaderV {
                    line_num: st.line_num + 1,
                    mesh: MeshV {
                        texture_coordinates: st.mesh.texture_coordinates.push(
                            Tex2V { u: u, v: clamp_i64(SCALE as int - v) },
                        ),
                        ..st.mesh
                    },
                    ..st
                },
                ActionV::Proceed,
            ),
        ),
{
    reveal_directives();
    assert(!skippable(line));
}

/// A face argument `v/t/n` whose three sub-tokens parse yields the
/// three references decremented to zero-based, in that slot order.
pub proof fn lemma_face_point_indices(
    arg: Seq<char>,
    ln: int,
    a: Seq<char>,
    b: Seq<char>,
    c: Seq<char>,
    v: int,
    t: int,
    n: int,
)
    requires
        split_char(arg, '/') =~= seq![a, b, c],
        parse_int_spec(a) == Some(v),
        parse_int_spec(b) == Some(t),
        parse_int_spec(c) == Some(n),
    ensures
        point_of_arg(arg, ln) == Ok::<PointV, ErrV>(
            PointV {
                vertex_index: dec_index(v),
                normal_index: dec_index(n),
                texture_coordinate_index: dec_index(t),
            },
        ),
{
}

/// A face line with fewer than three arguments fails with the
/// too-few-points error carrying that line's number.
pub proof fn lemma_too_few_points(st: LoaderV, line: Seq<char>, args: Seq<Seq<char>>)
    requires
        tokens_of(line) =~= seq!["f"@] + args,
        args.len() < 3,
    ensures
        geom_line_step(st, line) == Err::<(LoaderV, ActionV), ErrV>(
            ErrV::TooFewPoints { line: st.line_num + 1 },
        ),
{
    reveal_directives();
    assert(!skippable(line));
    assert(tokens_of(line)[0] == "f"@);
    assert(tokens_of(line).len() - 1 == args.len());
}

/// A directive outside the recognized set fails with a format error
/// carrying the file name, the line number, and the raw line text.
pub proof fn lemma_unknown_directive(st: LoaderV, line: Seq<char>)
    requires
        !skippable(line),
        tokens_of(line)[0] != "o"@,
        tokens_of(line)[0] != "g"@,
        tokens_of(line)[0] != "mtllib"@,
        tokens_of(line)[0] != "usemtl"@,
        tokens_of(line)[0] != "v"@,
        tokens_of(line)[0] != "vt"@,
        tokens_of(line)[0] != "vn"@,
        tokens_of(line)[0] != "f"@,
        tokens_of(line)[0] != "s"@,
    ensures
        geom_line_step(st, line) == Err::<(LoaderV, ActionV), ErrV>(
            ErrV::Format { filename: st.filename, line: st.line_num + 1, text: line },
        ),
{
}

/// Selecting a material name that no declared material carries opens
/// a fresh surface whose material stays unresolved (-1); it is not a
/// parse failure.
pub proof fn lemma_usemtl_unknown(st: LoaderV, line: Seq<char>, name: Seq<char>)
    requires
        tokens_of(line) =~= seq!["usemtl"@, name],
        forall|k: int|
            0 <= k < st.mesh.materials.len() ==> (#[trigger] st.mesh.materials[k]).material_name
                != name,
    ensures
        geom_line_step(st, line) matches Ok(p) && p.0.surf == (SurfaceV {
            material_index: -1,
            faces: Seq::empty(),
        }) && p.1 == ActionV::Proceed,
{
    reveal_directives();
    assert(!skippable(line));
    lemma_find_material_none(st.mesh.materials, name);
}

/// Selecting a declared material name resolves the fresh surface to
/// the first material carrying it.
pub proof fn lemma_usemtl_known(st: LoaderV, line: Seq<char>, name: Seq<char>)
    requires
        tokens_of(line) =~= seq!["usemtl"@, name],
        find_material(st.mesh.materials, name) >= 0,
    ensures
        geom_line_step(st, line) matches Ok(p) && p.0.surf == (SurfaceV {
            material_index: find_material(st.mesh.materials, name),
            faces: Seq::empty(),
        }),
{
    reveal_directives();
    assert(!skippable(line));
}

/// Parsing is deterministic: one state and one line admit exactly one
/// outcome, so re-running a load over the same lines rebuilds the
/// same mesh.
pub proof fn lemma_load_deterministic(st1: LoaderV, st2: LoaderV, line1: Seq<char>, line2: Seq<char>)
    requires
        st1 == st2,
        line1 == line2,
    ensures
        geom_line_step(st1, line1) == geom_line_step(st2, line2),
{
}

} // verus!
