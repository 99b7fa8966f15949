use mesh_obj::error::ParseError;
use mesh_obj::loader::LineAction;
use mesh_obj::loader::Loader;
use mesh_obj::model::Mesh;
use mesh_obj::mtl::parse_mtl;
use mesh_obj::scalar::Scalar;

fn lines(text: &str) -> Vec<String> {
    text.lines().map(|l| l.to_string()).collect()
}

/// Drive a loader over a document, serving `mtllib` requests from the
/// given in-memory catalogues.
fn load_with_mtls(text: &str, mtls: &[(&str, &str)]) -> Result<Mesh, ParseError> {
    let mut loader = Loader::new("model.obj");
    for line in text.lines() {
        match loader.feed_line(line)? {
            LineAction::Proceed => {},
            LineAction::LoadMtl(name) => {
                let body = mtls
                    .iter()
                    .find(|(n, _)| *n == name)
                    .map(|(_, b)| *b)
                    .expect("test document asked for an unknown catalogue");
                let mats = parse_mtl(&name, &lines(body))?;
                loader.add_materials(mats);
            },
        }
    }
    Ok(loader.finish())
}

fn load(text: &str) -> Result<Mesh, ParseError> {
    load_with_mtls(text, &[])
}

const MICRO: i64 = 1_000_000;

#[test]
fn vertex_declaration_stores_parsed_components() {
    let mesh = load("v 1.5 2 -0.25\n").unwrap();
    assert_eq!(mesh.vertexes.len(), 1);
    assert_eq!(mesh.vertexes[0].x, Scalar { micros: 1_500_000 });
    assert_eq!(mesh.vertexes[0].y, Scalar { micros: 2_000_000 });
    assert_eq!(mesh.vertexes[0].z, Scalar { micros: -250_000 });
}

#[test]
fn normal_declaration_stores_parsed_components() {
    let mesh = load("vn 0 1 -1\n").unwrap();
    assert_eq!(mesh.normals.len(), 1);
    assert_eq!(mesh.normals[0].x, Scalar { micros: 0 });
    assert_eq!(mesh.normals[0].y, Scalar { micros: MICRO });
    assert_eq!(mesh.normals[0].z, Scalar { micros: -MICRO });
}

#[test]
fn texcoord_v_is_stored_as_one_minus_input() {
    let mesh = load("vt 0.25 0.75\n").unwrap();
    assert_eq!(mesh.texture_coordinates.len(), 1);
    assert_eq!(mesh.texture_coordinates[0].u, Scalar { micros: 250_000 });
    assert_eq!(mesh.texture_coordinates[0].v, Scalar { micros: 250_000 });
}

#[test]
fn face_references_become_zero_based_in_slot_order() {
    let text = "v 0 0 0\nv 1 0 0\nv 0 1 0\n\
                vt 0 0\nvt 1 0\nvt 0 1\n\
                vn 0 0 1\nvn 0 1 0\nvn 1 0 0\n\
                f 1/1/1 2/2/2 3/3/3\n";
    let mesh = load(text).unwrap();
    let face = &mesh.objects[0].groups[0].surfaces[0].faces[0];
    assert_eq!(face.points.len(), 3);
    for (i, p) in face.points.iter().enumerate() {
        assert_eq!(p.vertex_index, i as i32);
        assert_eq!(p.texture_coordinate_index, i as i32);
        assert_eq!(p.normal_index, i as i32);
    }
}

#[test]
fn face_without_slashes_leaves_other_references_absent() {
    let mesh = load("v 0 0 0\nv 1 0 0\nv 0 1 0\nf 1 2 3\n").unwrap();
    let face = &mesh.objects[0].groups[0].surfaces[0].faces[0];
    assert_eq!(face.points[0].vertex_index, 0);
    assert_eq!(face.points[0].texture_coordinate_index, -1);
    assert_eq!(face.points[0].normal_index, -1);
}

#[test]
fn face_with_two_arguments_fails_with_too_few_points() {
    let err = load("v 0 0 0\nv 1 0 0\nf 1 2\n").unwrap_err();
    assert_eq!(err, ParseError::TooFewPointsError { line: 3 });
}

#[test]
fn unknown_directive_fails_with_the_exact_line_text() {
    let err = load("v 0 0 0\nxyz 1 2 3\n").unwrap_err();
    assert_eq!(
        err,
        ParseError::FormatError {
            filename: "model.obj".to_string(),
            line: 2,
            text: "xyz 1 2 3".to_string(),
        },
    );
}

#[test]
fn known_directive_with_wrong_arity_is_a_format_error() {
    let err = load("v 1 2\n").unwrap_err();
    assert_eq!(
        err,
        ParseError::FormatError {
            filename: "model.obj".to_string(),
            line: 1,
            text: "v 1 2".to_string(),
        },
    );
}

#[test]
fn double_space_in_vertex_line_fails_on_the_empty_token() {
    let err = load("v  1 2\n").unwrap_err();
    assert_eq!(err, ParseError::NumericParseError { line: 1, token: "".to_string() });
}

#[test]
fn comments_and_blank_lines_are_skipped_but_counted() {
    let err = load("# header\n\nv 0 0 0\nnope\n").unwrap_err();
    match err {
        ParseError::FormatError { line, text, .. } => {
            assert_eq!(line, 4);
            assert_eq!(text, "nope");
        },
        other => panic!("unexpected: {:?}", other),
    }
}

#[test]
fn smoothing_directive_is_recognized_and_ignored() {
    let mesh = load("v 0 0 0\ns 1\ns off\n").unwrap();
    assert_eq!(mesh.vertexes.len(), 1);
    assert!(mesh.objects.is_empty());
}

#[test]
fn usemtl_with_unknown_name_leaves_the_surface_unresolved() {
    let text = "v 0 0 0\nv 1 0 0\nv 0 1 0\nusemtl ghost\nf 1 2 3\n";
    let mesh = load(text).unwrap();
    let surface = &mesh.objects[0].groups[0].surfaces[0];
    assert_eq!(surface.material_index, -1);
    assert_eq!(surface.faces.len(), 1);
}

#[test]
fn mtllib_then_usemtl_resolves_to_the_first_matching_material() {
    let mtl = "newmtl red\nKd 1 0 0\nnewmtl blue\nKd 0 0 1\n";
    let text = "mtllib paints.mtl\nv 0 0 0\nv 1 0 0\nv 0 1 0\nusemtl blue\nf 1 2 3\n";
    let mesh = load_with_mtls(text, &[("paints.mtl", mtl)]).unwrap();
    assert_eq!(mesh.materials.len(), 2);
    let surface = &mesh.objects[0].groups[0].surfaces[0];
    assert_eq!(surface.material_index, 1);
    let mat = mesh.get_matrial(surface.material_index);
    assert_eq!(mat.material_name, "blue");
    assert_eq!(mat.diffuse.z, Scalar { micros: MICRO });
}

#[test]
fn material_file_errors_propagate_unchanged() {
    let mtl = "newmtl red\nKa oops 0 0\n";
    let text = "mtllib paints.mtl\nv 0 0 0\n";
    let err = load_with_mtls(text, &[("paints.mtl", mtl)]).unwrap_err();
    assert_eq!(err, ParseError::NumericParseError { line: 2, token: "oops".to_string() });
}

#[test]
fn minimal_document_flattens_to_one_24_number_chunk() {
    let mtl = "newmtl paint\nKd 0.5 0.5 0.5\n";
    let text = "mtllib paints.mtl\n\
                o thing\n\
                g side\n\
                usemtl paint\n\
                v 1 2 3\nv 4 5 6\nv 7 8 9\n\
                vt 0 0\nvt 0.5 0.5\nvt 1 1\n\
                vn 0 0 1\nvn 0 1 0\nvn 1 0 0\n\
                f 1/1/1 2/2/2 3/3/3\n";
    let mesh = load_with_mtls(text, &[("paints.mtl", mtl)]).unwrap();
    assert!(mesh.can_render());
    let buffer = mesh.get_vertex_array();
    assert_eq!(buffer.len(), 24);
    assert!(mesh.counts_fit());
    let info = mesh.get_surface_info();
    assert_eq!(info, vec![(3, 0)]);
    // first point: vertex 0, normal and texture references equal 0 and
    // are therefore treated as absent
    let micros: Vec<i64> = buffer.iter().map(|s| s.micros).collect();
    assert_eq!(
        &micros[0..8],
        &[MICRO, 2 * MICRO, 3 * MICRO, 0, 0, 0, 0, 0],
    );
    // second point: vertex 1, normal 1, texture 1 are all present
    assert_eq!(
        &micros[8..16],
        &[4 * MICRO, 5 * MICRO, 6 * MICRO, 0, MICRO, 0, 500_000, 500_000],
    );
}

#[test]
fn zero_references_are_treated_as_absent_in_the_buffer() {
    // the first texture coordinate and normal (zero-based index 0) are
    // emitted as zeros even though they exist
    let text = "v 1 1 1\nv 2 2 2\nv 3 3 3\n\
                vt 0.25 0.25\n\
                vn 1 0 0\n\
                f 1/1/1 2/1/1 3/1/1\n";
    let mesh = load(text).unwrap();
    assert!(mesh.can_render());
    let buffer = mesh.get_vertex_array();
    let micros: Vec<i64> = buffer.iter().map(|s| s.micros).collect();
    assert_eq!(&micros[0..8], &[MICRO, MICRO, MICRO, 0, 0, 0, 0, 0]);
}

#[test]
fn faces_with_more_than_three_points_keep_all_points_but_flatten_three() {
    let text = "v 0 0 0\nv 1 0 0\nv 1 1 0\nv 0 1 0\nf 1 2 3 4\n";
    let mesh = load(text).unwrap();
    let face = &mesh.objects[0].groups[0].surfaces[0].faces[0];
    assert_eq!(face.points.len(), 4);
    assert!(mesh.can_render());
    assert_eq!(mesh.get_vertex_array().len(), 24);
    assert_eq!(mesh.get_surface_info(), vec![(4, -1)]);
}

#[test]
fn out_of_range_vertex_reference_is_not_renderable() {
    let mesh = load("v 0 0 0\nf 5 6 7\n").unwrap();
    assert!(!mesh.can_render());
}

#[test]
fn group_and_object_transitions_elide_empty_containers() {
    let text = "o first\n\
                v 0 0 0\nv 1 0 0\nv 0 1 0\n\
                g a\n\
                f 1 2 3\n\
                g b\n\
                f 1 2 3\nf 1 3 2\n\
                o second\n\
                g c\n\
                f 1 2 3\n";
    let mesh = load(text).unwrap();
    assert_eq!(mesh.objects.len(), 2);
    assert_eq!(mesh.objects[0].object_name, "first");
    // an `o` directive closes only the object: group "b" is still open
    // when "second" starts, so its flush lands it in "second"
    assert_eq!(mesh.objects[0].groups.len(), 1);
    assert_eq!(mesh.objects[0].groups[0].group_name, "a");
    assert_eq!(mesh.objects[0].groups[0].surfaces[0].faces.len(), 1);
    assert_eq!(mesh.objects[1].object_name, "second");
    assert_eq!(mesh.objects[1].groups.len(), 2);
    assert_eq!(mesh.objects[1].groups[0].group_name, "b");
    assert_eq!(mesh.objects[1].groups[0].surfaces[0].faces.len(), 2);
    assert_eq!(mesh.objects[1].groups[1].group_name, "c");
    assert_eq!(mesh.objects[1].groups[1].surfaces[0].faces.len(), 1);
    assert_eq!(mesh.get_surface_info(), vec![(3, -1), (3, -1), (3, -1), (3, -1)]);
}

#[test]
fn empty_document_yields_an_empty_mesh() {
    let mesh = load("# nothing here\n\n").unwrap();
    assert!(mesh.objects.is_empty());
    assert!(mesh.vertexes.is_empty());
    assert!(mesh.can_render());
    assert_eq!(mesh.get_vertex_array().len(), 0);
    assert_eq!(mesh.get_surface_info().len(), 0);
}

#[test]
fn loading_twice_is_deterministic() {
    let mtl = "newmtl red\nKd 1 0 0\n";
    let text = "mtllib paints.mtl\n\
                o thing\ng side\nusemtl red\n\
                v 1 2 3\nv 4 5 6\nv 7 8 9\n\
                vt 0 1\nvn 1 0 0\n\
                f 1/1/1 2/1/1 3/1/1\n";
    let first = load_with_mtls(text, &[("paints.mtl", mtl)]).unwrap();
    let second = load_with_mtls(text, &[("paints.mtl", mtl)]).unwrap();
    assert_eq!(first, second);
    assert_eq!(first.get_vertex_array(), second.get_vertex_array());
    assert_eq!(first.get_surface_info(), second.get_surface_info());
}

#[test]
fn numeric_error_in_face_reports_the_offending_subtoken() {
    let err = load("v 0 0 0\nf 1/x/1 2 3\n").unwrap_err();
    assert_eq!(err, ParseError::NumericParseError { line: 2, token: "x".to_string() });
}

#[test]
fn negative_face_references_are_decremented_and_kept() {
    let mesh = load("v 0 0 0\nf -1 -2 -3\n").unwrap();
    let face = &mesh.objects[0].groups[0].surfaces[0].faces[0];
    assert_eq!(face.points[0].vertex_index, -2);
    assert_eq!(face.points[1].vertex_index, -3);
    assert_eq!(face.points[2].vertex_index, -4);
    // a negative vertex reference cannot be flattened
    assert!(!mesh.can_render());
}

#[test]
fn face_point_with_two_subtokens_has_no_normal() {
    let mesh = load("v 0 0 0\nv 1 0 0\nv 0 1 0\nvt 0 0\nf 1/1 2/1 3/1\n").unwrap();
    let p = &mesh.objects[0].groups[0].surfaces[0].faces[0].points[0];
    assert_eq!(p.vertex_index, 0);
    assert_eq!(p.texture_coordinate_index, 0);
    assert_eq!(p.normal_index, -1);
}

#[test]
fn texcoord_flip_saturates_on_extreme_input() {
    // the parsed v already saturates to the lowest representable value;
    // flipping it saturates at the top
    let mesh = load("vt 0 -10000000000000\n").unwrap();
    assert_eq!(mesh.texture_coordinates[0].v, Scalar { micros: i64::MAX });
}

#[test]
fn object_directive_with_wrong_arity_is_a_format_error() {
    let err = load("o one two\n").unwrap_err();
    assert_eq!(
        err,
        ParseError::FormatError {
            filename: "model.obj".to_string(),
            line: 1,
            text: "o one two".to_string(),
        },
    );
}
