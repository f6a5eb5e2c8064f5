use webxr_session::shader::{
    await_both, collect_shaders, FetchError, Shader, ShaderKind, ShaderVariant,
};

fn complete_pair(s: &Shader) -> (String, String) {
    (
        s.vertex_shader.clone().expect("vertex payload missing"),
        s.fragment_shader.clone().expect("fragment payload missing"),
    )
}

#[test]
fn rendezvous_vertex_first_equals_fragment_first() {
    let vertex = String::from("void main() { gl_Position = vec4(0.0); }");
    let fragment = String::from("void main() { color = vec4(1.0); }");

    let vertex_first = collect_shaders(vec![
        ShaderVariant::Vertex(vertex.clone()),
        ShaderVariant::Fragment(fragment.clone()),
    ]);
    let fragment_first = collect_shaders(vec![
        ShaderVariant::Fragment(fragment.clone()),
        ShaderVariant::Vertex(vertex.clone()),
    ]);

    assert!(vertex_first.complete());
    assert!(fragment_first.complete());
    assert_eq!(complete_pair(&vertex_first), complete_pair(&fragment_first));
    assert_eq!(complete_pair(&vertex_first), (vertex, fragment));
}

#[test]
fn rendezvous_duplicate_stage_is_overwritten_by_last_write() {
    let s = collect_shaders(vec![
        ShaderVariant::Vertex(String::from("first")),
        ShaderVariant::Vertex(String::from("second")),
        ShaderVariant::Fragment(String::from("frag")),
    ]);
    assert!(s.complete());
    assert_eq!(
        complete_pair(&s),
        (String::from("second"), String::from("frag"))
    );
}

#[test]
fn rendezvous_stops_once_complete() {
    let s = collect_shaders(vec![
        ShaderVariant::Vertex(String::from("v")),
        ShaderVariant::Fragment(String::from("f")),
        ShaderVariant::Vertex(String::from("late")),
    ]);
    assert!(s.complete());
    assert_eq!(complete_pair(&s), (String::from("v"), String::from("f")));
}

#[test]
fn rendezvous_incomplete_without_fragment() {
    let s = collect_shaders(vec![ShaderVariant::Vertex(String::from("v"))]);
    assert!(!s.complete());
    assert_eq!(s.vertex_shader, Some(String::from("v")));
    assert_eq!(s.fragment_shader, None);
}

#[test]
fn rendezvous_empty_is_incomplete() {
    let s = collect_shaders(vec![]);
    assert!(!s.complete());
}

#[test]
fn await_both_yields_pair_when_both_succeed() {
    let r = await_both(Ok(String::from("v")), Ok(String::from("f")));
    let s = r.expect("both fetches succeeded");
    assert!(s.complete());
    assert_eq!(s.into_pair(), (String::from("v"), String::from("f")));
}

#[test]
fn await_both_reports_vertex_failure() {
    let r = await_both(Err(FetchError::Network), Ok(String::from("f")));
    let e = r.err().expect("vertex fetch failed");
    assert_eq!(e.resource, ShaderKind::Vertex);
    assert_eq!(e.cause, FetchError::Network);
}

#[test]
fn await_both_reports_fragment_failure() {
    let r = await_both(Ok(String::from("v")), Err(FetchError::NonTextBody));
    let e = r.err().expect("fragment fetch failed");
    assert_eq!(e.resource, ShaderKind::Fragment);
    assert_eq!(e.cause, FetchError::NonTextBody);
}

#[test]
fn await_both_prefers_vertex_when_both_fail() {
    let r = await_both(Err(FetchError::Network), Err(FetchError::NonTextBody));
    let e = r.err().expect("both fetches failed");
    assert_eq!(e.resource, ShaderKind::Vertex);
    assert_eq!(e.cause, FetchError::Network);
}
