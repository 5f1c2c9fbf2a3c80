//! Shader modules.

use vstd::prelude::*;

verus! {

/// What a shader is created from.
pub struct ShaderCreateInfo<'a> {
    /// The shader's code, a sequence of 32-bit words as bytes.
    pub code: &'a [u8],
    pub debug_name: Option<String>,
}

#[derive(Debug)]
pub enum ShaderCreateError {
    Other(String),
}

/// A shader module of the device.
#[derive(Debug, Copy, Clone, PartialEq, Eq, Structural)]
pub struct Shader {
    /// The native shader module.
    pub module: u64,
}

/// Reads bytes as 32-bit words in the machine's byte order, through
/// `bytemuck::try_cast_slice`. The cast fails when the bytes do not make up
/// whole words, and also when they do not lie at an address that words may
/// lie at; when it yields words, they cover the bytes exactly.
#[verifier::external_body]
fn cast_words(code: &[u8]) -> (r: Option<Vec<u32>>)
    ensures
        r is Some ==> code@.len() == 4 * r->0@.len(),
{
    bytemuck::try_cast_slice::<u8, u32>(code).ok().map(|words| words.to_vec())
}

/// What is said of code that cannot be read as words.
pub open spec fn bad_code_size() -> Seq<char> {
    "shader code size is not a multiple of 4"@
}

/// The result of reading shader code as words, given what the cast gave:
/// the words, or the error that says that the size is wrong.
pub fn words_or_error(cast: Option<Vec<u32>>) -> (r: Result<Vec<u32>, ShaderCreateError>)
    ensures
        cast is Some ==> r == Ok::<Vec<u32>, ShaderCreateError>(cast->0),
        cast is None ==> r is Err && r->Err_0->Other_0@ == bad_code_size(),
{
    match cast {
        Some(words) => Ok(words),
        None => Err(ShaderCreateError::Other("shader code size is not a multiple of 4".to_owned())),
    }
}

impl<'a> ShaderCreateInfo<'a> {
    /// The code as 32-bit words. Code whose size is no multiple of 4 is
    /// refused.
    pub fn words(&self) -> (r: Result<Vec<u32>, ShaderCreateError>)
        ensures
            self.code@.len() % 4 != 0 ==> r is Err,
            r is Ok ==> self.code@.len() == 4 * r->Ok_0@.len(),
            r is Err ==> r->Err_0->Other_0@ == bad_code_size(),
    {
        words_or_error(cast_words(self.code))
    }
}

impl Shader {
    /// The shader around the native module `module`.
    pub fn new(module: u64) -> (r: Self)
        ensures
            r.module == module,
    {
        Shader { module }
    }
}

} // verus!
