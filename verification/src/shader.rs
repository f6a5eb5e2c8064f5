//! Resource rendezvous: two independently scheduled fetches each deliver one
//! shader source; the rendezvous accumulates them and yields the completed
//! pair regardless of arrival order.

use vstd::prelude::*;

verus! {

/// Which pipeline stage a shader source feeds.
#[derive(Clone, Copy, Debug, PartialEq, Eq, Structural)]
pub enum ShaderKind {
    Vertex,
    Fragment,
}

/// One arrived shader source, tagged with its stage.
#[derive(Clone, Debug)]
pub enum ShaderVariant {
    Vertex(String),
    Fragment(String),
}

/// Why a single fetch failed.
#[derive(Clone, Copy, Debug, PartialEq, Eq, Structural)]
pub enum FetchError {
    Network,
    NonTextBody,
}

/// A startup-fatal fetch failure, tagged with the resource that failed.
#[derive(Clone, Copy, Debug, PartialEq, Eq, Structural)]
pub struct ResourceFetchError {
    pub resource: ShaderKind,
    pub cause: FetchError,
}

/// Accumulator of the rendezvous: at most one payload per stage,
/// complete exactly when both are present.
#[derive(Clone, Debug)]
pub struct Shader {
    pub vertex_shader: Option<String>,
    pub fragment_shader: Option<String>,
}

/// One arrival folded into the accumulator: the slot of the arrived stage is
/// overwritten (last write wins), the other slot is kept.
pub open spec fn spec_receive(s: Shader, message: ShaderVariant) -> Shader {
    match message {
        ShaderVariant::Vertex(text) => Shader {
            vertex_shader: Some(text),
            fragment_shader: s.fragment_shader,
        },
        ShaderVariant::Fragment(text) => Shader {
            vertex_shader: s.vertex_shader,
            fragment_shader: Some(text),
        },
    }
}

/// The rendezvous consumer: fold arrivals in order, stopping at the first
/// point where both payloads are present.
pub open spec fn spec_rendezvous(s: Shader, messages: Seq<ShaderVariant>) -> Shader
    decreases messages.len(),
{
    if s.is_complete() || messages.len() == 0 {
        s
    } else {
        spec_rendezvous(spec_receive(s, messages[0]), messages.subrange(1, messages.len() as int))
    }
}

impl Shader {
    /// Both payloads have been observed.
    pub open spec fn is_complete(self) -> bool {
        self.vertex_shader is Some && self.fragment_shader is Some
    }

    /// The accumulator before any payload has arrived.
    pub open spec fn spec_empty() -> Shader {
        Shader { vertex_shader: None, fragment_shader: None }
    }

    pub fn empty() -> (s: Shader)
        ensures
            s == Self::spec_empty(),
    {
        Shader { vertex_shader: None, fragment_shader: None }
    }

    /// Record one arrived payload; a repeated stage is overwritten
    /// deterministically by last write.
    pub fn receive(&mut self, message: ShaderVariant)
        ensures
            *final(self) == spec_receive(*old(self), message),
    {
        match message {
            ShaderVariant::Vertex(text) => {
                self.vertex_shader = Some(text);
            }
            ShaderVariant::Fragment(text) => {
                self.fragment_shader = Some(text);
            }
        }
    }

    /// Runtime test of the completeness predicate.
    pub fn complete(&self) -> (r: bool)
        ensures
            r == self.is_complete(),
    {
        self.vertex_shader.is_some() && self.fragment_shader.is_some()
    }

    /// The completed pair, in (vertex, fragment) order; consumed exactly once
    /// by the pipeline builder.
    pub fn into_pair(self) -> (r: (String, String))
        requires
            self.is_complete(),
        ensures
            self.vertex_shader == Some(r.0),
            self.fragment_shader == Some(r.1),
    {
        match (self.vertex_shader, self.fragment_shader) {
            (Some(v), Some(f)) => (v, f),
            _ => unreached(),
        }
    }
}

/// Drain arrived messages in order until the set is complete (or the
/// messages run out): the loop of the waiting consumer task.
pub fn collect_shaders(messages: Vec<ShaderVariant>) -> (s: Shader)
    ensures
        s == spec_rendezvous(Shader::spec_empty(), messages@),
{
    let mut pending = messages;
    let mut s = Shader::empty();
    loop
        invariant
            spec_rendezvous(Shader::spec_empty(), messages@) == spec_rendezvous(s, pending@),
        ensures
            spec_rendezvous(Shader::spec_empty(), messages@) == spec_rendezvous(s, pending@),
            s.is_complete() || pending@.len() == 0,
        decreases pending.len(),
    {
        if s.complete() || pending.len() == 0 {
            break;
        }
        let ghost prev = pending@;
        let message = pending.remove(0);
        proof {
            assert(pending@ =~= prev.subrange(1, prev.len() as int));
        }
        s.receive(message);
    }
    s
}

/// Arrival order of the two payloads does not affect the completed pair: the
/// vertex-first and fragment-first interleavings both complete the rendezvous
/// with the same pair.
pub proof fn lemma_rendezvous_order_irrelevant(vertex_text: String, fragment_text: String)
    ensures
        spec_rendezvous(
            Shader::spec_empty(),
            seq![
                ShaderVariant::Vertex(vertex_text),
                ShaderVariant::Fragment(fragment_text),
            ],
        ) == spec_rendezvous(
            Shader::spec_empty(),
            seq![
                ShaderVariant::Fragment(fragment_text),
                ShaderVariant::Vertex(vertex_text),
            ],
        ),
        spec_rendezvous(
            Shader::spec_empty(),
            seq![
                ShaderVariant::Vertex(vertex_text),
                ShaderVariant::Fragment(fragment_text),
            ],
        ) == (Shader {
            vertex_shader: Some(vertex_text),
            fragment_shader: Some(fragment_text),
        }),
        spec_rendezvous(
            Shader::spec_empty(),
            seq![
                ShaderVariant::Vertex(vertex_text),
                ShaderVariant::Fragment(fragment_text),
            ],
        ).is_complete(),
{
    reveal_with_fuel(spec_rendezvous, 4);
    let vertex_first = seq![
        ShaderVariant::Vertex(vertex_text),
        ShaderVariant::Fragment(fragment_text),
    ];
    let fragment_first = seq![
        ShaderVariant::Fragment(fragment_text),
        ShaderVariant::Vertex(vertex_text),
    ];
    let both = Shader {
        vertex_shader: Some(vertex_text),
        fragment_shader: Some(fragment_text),
    };
    assert(vertex_first.subrange(1, 2) =~= seq![ShaderVariant::Fragment(fragment_text)]);
    assert(fragment_first.subrange(1, 2) =~= seq![ShaderVariant::Vertex(vertex_text)]);
    let vertex_only = spec_receive(Shader::spec_empty(), vertex_first[0]);
    let fragment_only = spec_receive(Shader::spec_empty(), fragment_first[0]);
    assert(spec_rendezvous(vertex_only, seq![ShaderVariant::Fragment(fragment_text)]) == both);
    assert(spec_rendezvous(fragment_only, seq![ShaderVariant::Vertex(vertex_text)]) == both);
    assert(spec_rendezvous(Shader::spec_empty(), vertex_first) == both);
    assert(spec_rendezvous(Shader::spec_empty(), fragment_first) == both);
}

/// The rendezvous never misses: whenever the arrivals hold at least one
/// payload of each stage — in whatever order, duplicates included — the
/// accumulator it stops on is complete.
pub proof fn lemma_rendezvous_completes(s: Shader, messages: Seq<ShaderVariant>)
    requires
        s.vertex_shader is Some || exists|i: int|
            0 <= i < messages.len() && #[trigger] messages[i] is Vertex,
        s.fragment_shader is Some || exists|i: int|
            0 <= i < messages.len() && #[trigger] messages[i] is Fragment,
    ensures
        spec_rendezvous(s, messages).is_complete(),
    decreases messages.len(),
{
    if !s.is_complete() {
        assert(messages.len() > 0);
        let folded = spec_receive(s, messages[0]);
        let tail = messages.subrange(1, messages.len() as int);
        assert(folded.vertex_shader is Some || exists|i: int|
            0 <= i < tail.len() && #[trigger] tail[i] is Vertex) by {
            if folded.vertex_shader is None {
                let i = choose|i: int| 0 <= i < messages.len() && #[trigger] messages[i] is Vertex;
                assert(i >= 1);
                assert(tail[i - 1] is Vertex);
            }
        }
        assert(folded.fragment_shader is Some || exists|i: int|
            0 <= i < tail.len() && #[trigger] tail[i] is Fragment) by {
            if folded.fragment_shader is None {
                let i = choose|i: int|
                    0 <= i < messages.len() && #[trigger] messages[i] is Fragment;
                assert(i >= 1);
                assert(tail[i - 1] is Fragment);
            }
        }
        lemma_rendezvous_completes(folded, tail);
    }
}

/// What `await_both` must return: the completed pair when both fetches
/// succeeded, otherwise the first failure tagged with the resource that
/// failed (the vertex fetch is examined first).
pub open spec fn spec_await_both(
    vertex: Result<String, FetchError>,
    fragment: Result<String, FetchError>,
) -> Result<Shader, ResourceFetchError> {
    match (vertex, fragment) {
        (Ok(v), Ok(f)) => Ok(Shader { vertex_shader: Some(v), fragment_shader: Some(f) }),
        (Err(cause), _) => Err(ResourceFetchError { resource: ShaderKind::Vertex, cause }),
        (_, Err(cause)) => Err(ResourceFetchError { resource: ShaderKind::Fragment, cause }),
    }
}

/// Combine the two fetch outcomes: the pair when both succeeded, otherwise
/// the first failure, tagged with the resource that failed. No default
/// source is ever substituted.
pub fn await_both(
    vertex: Result<String, FetchError>,
    fragment: Result<String, FetchError>,
) -> (r: Result<Shader, ResourceFetchError>)
    ensures
        r == spec_await_both(vertex, fragment),
        r is Ok <==> (vertex is Ok && fragment is Ok),
        r matches Ok(s) ==> s.is_complete(),
{
    match (vertex, fragment) {
        (Ok(v), Ok(f)) => Ok(Shader { vertex_shader: Some(v), fragment_shader: Some(f) }),
        (Err(cause), _) => Err(ResourceFetchError { resource: ShaderKind::Vertex, cause }),
        (_, Err(cause)) => Err(ResourceFetchError { resource: ShaderKind::Fragment, cause }),
    }
}

} // verus!
