//! The material catalogue parser.  The caller reads the catalogue file
//! and hands its lines here; parsing itself is fully specified by
//! [`parse_mtl_spec`] and proved.

use vstd::prelude::*;

use crate::error::ErrV;
use crate::error::ParseError;
use crate::model::empty_material;
use crate::model::Material;
use crate::model::MaterialV;
use crate::model::Vec3V;
use crate::model::Vecter3D;
use crate::scalar::parse_number;
use crate::scalar::parse_scalar_spec;
use crate::text::skippable;
use crate::text::str_eq;
use crate::text::tokenize;
use crate::text::tokens_of;
use crate::text::tokens_skippable;

verus! {

/// The catalogue parser's running state: the material being built and
/// the materials already flushed, in file order.
#[verifier::ext_equal]
pub struct MtlStateV {
    pub cur: MaterialV,
    pub out: Seq<MaterialV>,
}

/// The state before any line has been read.
pub open spec fn mtl_init() -> MtlStateV {
    MtlStateV { cur: empty_material(), out: Seq::empty() }
}

/// Three colour-channel tokens parsed in order; the first failure wins.
pub open spec fn vec3_of_tokens(a: Seq<char>, b: Seq<char>, c: Seq<char>, ln: int) -> Result<
    Vec3V,
    ErrV,
> {
    match parse_scalar_spec(a) {
        None => Err(ErrV::Numeric { line: ln, token: a }),
        Some(x) => match parse_scalar_spec(b) {
            None => Err(ErrV::Numeric { line: ln, token: b }),
            Some(y) => match parse_scalar_spec(c) {
                None => Err(ErrV::Numeric { line: ln, token: c }),
                Some(z) => Ok(Vec3V { x: x, y: y, z: z }),
            },
        },
    }
}

/// What one catalogue line does to the parser's state.
pub open spec fn mtl_line_step(
    filename: Seq<char>,
    ln: int,
    st: MtlStateV,
    line: Seq<char>,
) -> Result<MtlStateV, ErrV> {
    if skippable(line) {
        Ok(st)
    } else {
        let toks = tokens_of(line);
        let cmd = toks[0];
        let argc = toks.len() - 1;
        if cmd == "newmtl"@ && argc == 1 {
            if st.cur.material_name.len() > 0 {
                Ok(
                    MtlStateV {
                        cur: MaterialV { material_name: toks[1], ..empty_material() },
                        out: st.out.push(st.cur),
                    },
                )
            } else {
                Ok(MtlStateV { cur: MaterialV { material_name: toks[1], ..st.cur }, out: st.out })
            }
        } else if cmd == "Ka"@ && argc == 3 {
            match vec3_of_tokens(toks[1], toks[2], toks[3], ln) {
                Err(e) => Err(e),
                Ok(v) => Ok(MtlStateV { cur: MaterialV { ambient: v, ..st.cur }, ..st }),
            }
        } else if cmd == "Kd"@ && argc == 3 {
            match vec3_of_tokens(toks[1], toks[2], toks[3], ln) {
                Err(e) => Err(e),
                Ok(v) => Ok(MtlStateV { cur: MaterialV { diffuse: v, ..st.cur }, ..st }),
            }
        } else if cmd == "Ks"@ && argc == 3 {
            match vec3_of_tokens(toks[1], toks[2], toks[3], ln) {
                Err(e) => Err(e),
                Ok(v) => Ok(MtlStateV { cur: MaterialV { specular: v, ..st.cur }, ..st }),
            }
        } else if cmd == "Ke"@ && argc == 3 {
            Ok(st)
        } else if cmd == "Ns"@ && argc == 1 {
            match parse_scalar_spec(toks[1]) {
                None => Err(ErrV::Numeric { line: ln, token: toks[1] }),
                Some(v) => Ok(MtlStateV { cur: MaterialV { shininess: v, ..st.cur }, ..st }),
            }
        } else if (cmd == "d"@ || cmd == "Tr"@) && argc == 1 {
            match parse_scalar_spec(toks[1]) {
                None => Err(ErrV::Numeric { line: ln, token: toks[1] }),
                Some(v) => Ok(MtlStateV { cur: MaterialV { alpha: v, ..st.cur }, ..st }),
            }
        } else if cmd == "map_Ka"@ && argc == 1 {
            Ok(MtlStateV { cur: MaterialV { ambient_filename: toks[1], ..st.cur }, ..st })
        } else if cmd == "map_Kd"@ && argc == 1 {
            Ok(MtlStateV { cur: MaterialV { diffuse_filename: toks[1], ..st.cur }, ..st })
        } else if cmd == "map_Ks"@ && argc == 1 {
            Ok(MtlStateV { cur: MaterialV { specular_filename: toks[1], ..st.cur }, ..st })
        } else if (cmd == "map_bump"@ || cmd == "bump"@) && argc == 1 {
            Ok(MtlStateV { cur: MaterialV { bumpmap_filename: toks[1], ..st.cur }, ..st })
        } else if (cmd == "map_Ns"@ || cmd == "map_d"@ || cmd == "illum"@ || cmd == "disp"@ || cmd
            == "decal"@ || cmd == "map_ke"@ || cmd == "aniso"@ || cmd == "anisor"@ || cmd
            == "norm"@) && argc == 1 {
            Ok(st)
        } else if (cmd == "Pr"@ || cmd == "map_Pr"@ || cmd == "Pm"@ || cmd == "map_Pm"@ || cmd
            == "Ps"@ || cmd == "map_Ps"@) && argc == 1 {
            Ok(st)
        } else if cmd == "Ni"@ || cmd == "Tf"@ || cmd == "Pc"@ || cmd == "Pcr"@ {
            Ok(st)
        } else {
            Err(ErrV::Format { filename: filename, line: ln, text: line })
        }
    }
}

/// The catalogue from line `i` on, starting in state `st`: the final
/// flush appends the in-progress material when it has a name.
pub open spec fn mtl_run(
    filename: Seq<char>,
    lines: Seq<Seq<char>>,
    i: int,
    st: MtlStateV,
) -> Result<Seq<MaterialV>, ErrV>
    decreases lines.len() - i,
{
    if i < 0 || i >= lines.len() {
        Ok(
            if st.cur.material_name.len() > 0 {
                st.out.push(st.cur)
            } else {
                st.out
            },
        )
    } else {
        match mtl_line_step(filename, i + 1, st, lines[i]) {
            Ok(st2) => mtl_run(filename, lines, i + 1, st2),
            Err(e) => Err(e),
        }
    }
}

/// What parsing a whole catalogue yields.
pub open spec fn parse_mtl_spec(filename: Seq<char>, lines: Seq<Seq<char>>) -> Result<
    Seq<MaterialV>,
    ErrV,
> {
    mtl_run(filename, lines, 0, mtl_init())
}

/// Process one catalogue line.
fn mtl_step_exec(
    filename: &str,
    line: &str,
    line_num: i32,
    mut cur: Material,
    mut out: Vec<Material>,
) -> (r: Result<(Material, Vec<Material>), ParseError>)
    ensures
        ({
            let step = mtl_line_step(
                filename@,
                line_num as int,
                MtlStateV { cur: cur@, out: out.deep_view() },
                line@,
            );
            match r {
                Ok(p) => step matches Ok(st2) && p.0@ == st2.cur && p.1.deep_view() == st2.out,
                Err(e) => step matches Err(ev) && e@ == ev,
            }
        }),
{
    let ghost st0 = MtlStateV { cur: cur@, out: out.deep_view() };
    let toks = tokenize(line);
    proof {
        assert(forall|k: int|
            0 <= k < toks@.len() ==> #[trigger] toks@[k]@ == tokens_of(line@)[k]);
    }
    if tokens_skippable(&toks, Ghost(line@)) {
        return Ok((cur, out));
    }
    let argc = toks.len() - 1;
    let cmd = &toks[0];
    if str_eq(cmd.as_str(), "newmtl") && argc == 1 {
        let name = toks[1].clone();
        if !cur.empty() {
            out.push(cur);
            let mut fresh = Material::new();
            fresh.material_name = name;
            proof {
                assert(out.deep_view() =~= st0.out.push(st0.cur));
            }
            Ok((fresh, out))
        } else {
            cur.material_name = name;
            Ok((cur, out))
        }
    } else if str_eq(cmd.as_str(), "Ka") && argc == 3 {
        let x = match parse_number(toks[1].as_str(), line_num) {
            Ok(v) => v,
            Err(e) => return Err(e),
        };
        let y = match parse_number(toks[2].as_str(), line_num) {
            Ok(v) => v,
            Err(e) => return Err(e),
        };
        let z = match parse_number(toks[3].as_str(), line_num) {
            Ok(v) => v,
            Err(e) => return Err(e),
        };
        cur.ambient = Vecter3D { x, y, z };
        Ok((cur, out))
    } else if str_eq(cmd.as_str(), "Kd") && argc == 3 {
        let x = match parse_number(toks[1].as_str(), line_num) {
            Ok(v) => v,
            Err(e) => return Err(e),
        };
        let y = match parse_number(toks[2].as_str(), line_num) {
            Ok(v) => v,
            Err(e) => return Err(e),
        };
        let z = match parse_number(toks[3].as_str(), line_num) {
            Ok(v) => v,
            Err(e) => return Err(e),
        };
        cur.diffuse = Vecter3D { x, y, z };
        Ok((cur, out))
    } else if str_eq(cmd.as_str(), "Ks") && argc == 3 {
        let x = match parse_number(toks[1].as_str(), line_num) {
            Ok(v) => v,
            Err(e) => return Err(e),
        };
        let y = match parse_number(toks[2].as_str(), line_num) {
            Ok(v) => v,
            Err(e) => return Err(e),
        };
        let z = match parse_number(toks[3].as_str(), line_num) {
            Ok(v) => v,
            Err(e) => return Err(e),
        };
        cur.specular = Vecter3D { x, y, z };
        Ok((cur, out))
    } else if str_eq(cmd.as_str(), "Ke") && argc == 3 {
        Ok((cur, out))
    } else if str_eq(cmd.as_str(), "Ns") && argc == 1 {
        let v = match parse_number(toks[1].as_str(), line_num) {
            Ok(v) => v,
            Err(e) => return Err(e),
        };
        cur.shininess = v;
        Ok((cur, out))
    } else if (str_eq(cmd.as_str(), "d") || str_eq(cmd.as_str(), "Tr")) && argc == 1 {
        let v = match parse_number(toks[1].as_str(), line_num) {
            Ok(v) => v,
            Err(e) => return Err(e),
        };
        cur.alpha = v;
        Ok((cur, out))
    } else if str_eq(cmd.as_str(), "map_Ka") && argc == 1 {
        cur.ambient_filename = toks[1].clone();
        Ok((cur, out))
    } else if str_eq(cmd.as_str(), "map_Kd") && argc == 1 {
        cur.diffuse_filename = toks[1].clone();
        Ok((cur, out))
    } else if str_eq(cmd.as_str(), "map_Ks") && argc == 1 {
        cur.specular_filename = toks[1].clone();
        Ok((cur, out))
    } else if (str_eq(cmd.as_str(), "map_bump") || str_eq(cmd.as_str(), "bump")) && argc == 1 {
        cur.bumpmap_filename = toks[1].clone();
        Ok((cur, out))
    } else if (str_eq(cmd.as_str(), "map_Ns") || str_eq(cmd.as_str(), "map_d") || str_eq(
        cmd.as_str(),
        "illum",
    ) || str_eq(cmd.as_str(), "disp") || str_eq(cmd.as_str(), "decal") || str_eq(
        cmd.as_str(),
        "map_ke",
    ) || str_eq(cmd.as_str(), "aniso") || str_eq(cmd.as_str(), "anisor") || str_eq(
        cmd.as_str(),
        "norm",
    )) && argc == 1 {
        Ok((cur, out))
    } else if (str_eq(cmd.as_str(), "Pr") || str_eq(cmd.as_str(), "map_Pr") || str_eq(
        cmd.as_str(),
        "Pm",
    ) || str_eq(cmd.as_str(), "map_Pm") || str_eq(cmd.as_str(), "Ps") || str_eq(
        cmd.as_str(),
        "map_Ps",
    )) && argc == 1 {
        Ok((cur, out))
    } else if str_eq(cmd.as_str(), "Ni") || str_eq(cmd.as_str(), "Tf") || str_eq(
        cmd.as_str(),
        "Pc",
    ) || str_eq(cmd.as_str(), "Pcr") {
        Ok((cur, out))
    } else {
        Err(
            ParseError::FormatError {
                filename: filename.to_owned(),
                line: line_num,
                text: line.to_owned(),
            },
        )
    }
}

/// Parse a material catalogue given as its lines, in file order.
/// `filename` is carried only for error reporting.
pub fn parse_mtl(filename: &str, lines: &Vec<String>) -> (r: Result<Vec<Material>, ParseError>)
    requires
        lines@.len() <= i32::MAX as int,
    ensures
        ({
            let outcome = parse_mtl_spec(filename@, lines.deep_view());
            match r {
                Ok(ms) => outcome == Ok::<Seq<MaterialV>, ErrV>(ms.deep_view()),
                Err(e) => outcome == Err::<Seq<MaterialV>, ErrV>(e@),
            }
        }),
{
    let mut cur = Material::new();
    let mut out: Vec<Material> = Vec::new();
    let mut i: usize = 0;
    proof {
        assert(out.deep_view() =~= Seq::<MaterialV>::empty());
    }
    while i < lines.len()
        invariant
            lines@.len() <= i32::MAX as int,
            0 <= i <= lines.len(),
            parse_mtl_spec(filename@, lines.deep_view()) == mtl_run(
                filename@,
                lines.deep_view(),
                i as int,
                MtlStateV { cur: cur@, out: out.deep_view() },
            ),
        decreases lines.len() - i,
    {
        let line_num: i32 = (i as i32) + 1;
        proof {
            assert(lines.deep_view()[i as int] == lines@[i as int]@);
        }
        match mtl_step_exec(filename, lines[i].as_str(), line_num, cur, out) {
            Ok(p) => {
                cur = p.0;
                out = p.1;
            },
            Err(e) => {
                return Err(e);
            },
        }
        i = i + 1;
    }
    if !cur.empty() {
        let ghost old_out = out.deep_view();
        let ghost old_cur = cur@;
        out.push(cur);
        proof {
            assert(out.deep_view() =~= old_out.push(old_cur));
        }
    }
    Ok(out)
}

} // verus!
