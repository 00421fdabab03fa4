//! MojoShader effect helpers: parameter lookup, effect loading outcome and state changes

use vstd::prelude::*;

verus! {

/// `std::io::Error`, carried through as an opaque value
#[verifier::external_type_specification]
#[verifier::external_body]
pub struct ExIoError(std::io::Error);

/// Render and sampler state changes requested by an effect pass. The library only ever builds
/// the value that requests no change, whose change lists are empty.
#[derive(Debug, Clone, Copy, PartialEq, Eq, Structural)]
pub struct EffectStateChanges {
    pub render_state_change_count: i32,
    pub sampler_state_change_count: i32,
    pub vertex_sampler_state_change_count: i32,
}

/// State changes that change nothing
pub fn no_change_effect() -> (r: EffectStateChanges)
    ensures
        r.render_state_change_count == 0,
        r.sampler_state_change_count == 0,
        r.vertex_sampler_state_change_count == 0,
{
    EffectStateChanges {
        render_state_change_count: 0,
        sampler_state_change_count: 0,
        vertex_sampler_state_change_count: 0,
    }
}

/// Why loading a shader failed
#[derive(Debug)]
pub enum LoadShaderError {
    /// Reading the shader file failed
    Io(std::io::Error),
    /// The effect compiled with errors; the text lists the effect's techniques
    EffectError(String),
}

/// Outcome of compiling an effect: success when the effect reports no error, otherwise an
/// effect error carrying `message`
pub fn effect_load_result(error_count: i32, message: String) -> (r: Result<(), LoadShaderError>)
    ensures
        r is Ok <==> error_count <= 0,
        r matches Err(e) ==> (e matches LoadShaderError::EffectError(m) && m@ == message@),
{
    if error_count <= 0 {
        Ok(())
    } else {
        Err(LoadShaderError::EffectError(message))
    }
}

/// Prefix of the description of an effect error
pub open spec fn effect_error_prefix() -> Seq<char> {
    seq!['S', 'h', 'a', 'd', 'e', 'r', ' ', 'l', 'o', 'a', 'd', 'i', 'n', 'g', ' ', 'e', 'r', 'r', 'o', 'r', 's', ':', ' ']
}

/// Text of an I/O error (its `Display` output)
#[verifier::external_body]
fn io_error_text(e: &std::io::Error) -> String {
    format!("{}", e)
}

impl LoadShaderError {
    /// Human-readable description: the I/O error's own text, or the effect error's message
    /// after "Shader loading errors: "
    pub fn describe(&self) -> (r: String)
        ensures
            self matches LoadShaderError::EffectError(m) ==> r@ == effect_error_prefix() + m@,
    {
        match self {
            LoadShaderError::Io(err) => io_error_text(err),
            LoadShaderError::EffectError(err) => {
                let mut s = String::new();
                let prefix = "Shader loading errors: ";
                proof {
                    reveal_strlit("Shader loading errors: ");
                }
                s.append(prefix);
                s.append(err.as_str());
                assert(s@ == effect_error_prefix() + err@);
                s
            },
        }
    }
}

/// Whether two byte strings are equal
fn bytes_equal(a: &[u8], b: &[u8]) -> (r: bool)
    ensures
        r == (a@ == b@),
{
    if a.len() != b.len() {
        return false;
    }
    let mut i: usize = 0;
    while i < a.len()
        invariant
            a@.len() == b@.len(),
            i <= a@.len(),
            a@.subrange(0, i as int) == b@.subrange(0, i as int),
        decreases a@.len() - i,
    {
        if a[i] != b[i] {
            assert(a@[i as int] != b@[i as int]);
            return false;
        }
        assert(a@.subrange(0, i + 1) == a@.subrange(0, i as int).push(a@[i as int]));
        assert(b@.subrange(0, i + 1) == b@.subrange(0, i as int).push(b@[i as int]));
        i = i + 1;
    }
    assert(a@ == a@.subrange(0, a@.len() as int));
    assert(b@ == b@.subrange(0, b@.len() as int));
    true
}

/// Position of the first parameter named `name` among the effect's parameter names, or `None`
/// when no parameter has that name
pub fn find_param(param_names: &Vec<Vec<u8>>, name: &[u8]) -> (r: Option<usize>)
    ensures
        r matches Some(i) ==> i < param_names@.len() && param_names@[i as int]@ == name@
            && forall|k: int| 0 <= k < i ==> param_names@[k]@ != name@,
        r is None ==> forall|k: int| 0 <= k < param_names@.len() ==> param_names@[k]@ != name@,
{
    let mut i: usize = 0;
    while i < param_names.len()
        invariant
            i <= param_names@.len(),
            forall|k: int| 0 <= k < i ==> param_names@[k]@ != name@,
        decreases param_names@.len() - i,
    {
        if bytes_equal(param_names[i].as_slice(), name) {
            return Some(i);
        }
        i = i + 1;
    }
    None
}

} // verus!
