//! The two shaders: their sources, and what the driver's answer to a compile
//! or a link means.

use vstd::prelude::*;
use vstd::utf8::*;

verus! {

/// The pipeline stage a shader is written for.
#[derive(Clone, Copy, Debug, PartialEq, Eq, Structural)]
pub enum ShaderStage {
    Vertex,
    Fragment,
}

/// Source of the vertex shader.
pub const VERTEX_SHADER_SOURCE: &'static str = "
#version 150
in vec2 position;
in vec3 color;
out vec3 Color;

void main() {
    Color = color;
    gl_Position = vec4(position, 0.0, 1.0);
}";

/// Source of the fragment shader.
pub const FRAGMENT_SHADER_SOURCE: &'static str = "
#version 150
in vec3 Color;
out vec4 out_color;

void main() {
    out_color = vec4(Color, 1.0);
}";

/// Name of the vertex shader's position input.
pub const POSITION_ATTRIBUTE: &'static str = "position";

/// Name of the vertex shader's colour input.
pub const COLOR_ATTRIBUTE: &'static str = "color";

/// Name of the fragment shader's output.
pub const FRAGMENT_OUTPUT: &'static str = "out_color";

/// The status with which the driver reports that a compile or a link
/// succeeded. Any other status is a failure.
pub const STATUS_OK: i32 = 1;

/// Diagnostic of a failed compile whose info log is not UTF-8.
pub const SHADER_LOG_NOT_UTF8: &'static str = "ShaderInfoLog not valid utf8";

/// Diagnostic of a failed link whose info log is not UTF-8.
pub const PROGRAM_LOG_NOT_UTF8: &'static str = "ProgramInfoLog not valid utf8";

impl ShaderStage {
    /// The source text of the stage's shader.
    pub open spec fn source_text(self) -> Seq<char> {
        match self {
            ShaderStage::Vertex => VERTEX_SHADER_SOURCE@,
            ShaderStage::Fragment => FRAGMENT_SHADER_SOURCE@,
        }
    }

    /// The source of the stage's shader. It can go to the driver as a
    /// NUL-terminated string.
    pub fn source(self) -> (r: &'static str)
        ensures
            r@ == self.source_text(),
            no_nul(r@),
    {
        proof {
            law_texts_hold_no_nul();
        }
        match self {
            ShaderStage::Vertex => VERTEX_SHADER_SOURCE,
            ShaderStage::Fragment => FRAGMENT_SHADER_SOURCE,
        }
    }
}

/// Why the program could not be built. Either way `log` is the diagnostic
/// to show.
#[derive(Debug, PartialEq, Eq)]
pub enum BuildError {
    /// A shader did not compile.
    ShaderCompile { stage: ShaderStage, log: String },
    /// The program did not link.
    ProgramLink { log: String },
}

impl BuildError {
    /// The diagnostic text.
    pub open spec fn log_text(self) -> Seq<char> {
        match self {
            BuildError::ShaderCompile { log, .. } => log@,
            BuildError::ProgramLink { log } => log@,
        }
    }

    /// The diagnostic text.
    pub fn diagnostic(&self) -> (r: &str)
        ensures
            r@ == self.log_text(),
    {
        match self {
            BuildError::ShaderCompile { log, .. } => log.as_str(),
            BuildError::ProgramLink { log } => log.as_str(),
        }
    }
}

/// Whether `status` reports success.
pub fn succeeded(status: i32) -> (r: bool)
    ensures
        r == (status == STATUS_OK),
{
    status == STATUS_OK
}

/// Sizes for fetching an info log.
#[derive(Clone, Copy, Debug, PartialEq, Eq, Structural)]
pub struct InfoLogSize {
    /// Bytes the driver writes: the text and a terminating NUL.
    pub capacity: usize,
    /// Bytes of text.
    pub text_len: usize,
}

/// Number of bytes the driver writes for a log whose length it reports as
/// `reported`.
pub open spec fn log_capacity(reported: int) -> int {
    if reported > 0 {
        reported
    } else {
        0
    }
}

/// Number of bytes of text in such a log: the reported length counts the
/// terminating NUL, the text does not hold it.
pub open spec fn log_text_len(reported: int) -> int {
    if reported > 0 {
        reported - 1
    } else {
        0
    }
}

/// The sizes for fetching an info log whose length the driver reports as
/// `reported`.
pub fn info_log_size(reported: i32) -> (r: InfoLogSize)
    ensures
        r.capacity == log_capacity(reported as int),
        r.text_len == log_text_len(reported as int),
{
    if reported > 0 {
        InfoLogSize { capacity: reported as usize, text_len: (reported - 1) as usize }
    } else {
        InfoLogSize { capacity: 0, text_len: 0 }
    }
}

/// The diagnostic for an info log of these bytes: the text they encode, or
/// `fallback` if they are not UTF-8.
pub open spec fn log_or(bytes: Seq<u8>, fallback: Seq<char>) -> Seq<char> {
    if valid_utf8(bytes) {
        decode_utf8(bytes)
    } else {
        fallback
    }
}

/// `String::from_utf8` of std. It returns the bytes as a string if they are
/// valid UTF-8, and an error otherwise; a string's contents are the
/// characters its bytes encode.
#[verifier::external_body]
fn string_from_utf8(bytes: Vec<u8>) -> (r: Option<String>)
    ensures
        r is Some <==> valid_utf8(bytes@),
        r matches Some(s) ==> s@ == decode_utf8(bytes@),
{
    match String::from_utf8(bytes) {
        Ok(s) => Some(s),
        Err(_) => None,
    }
}

/// The diagnostic for an info log of these bytes.
fn diagnostic_text(bytes: Vec<u8>, fallback: &str) -> (r: String)
    ensures
        r@ == log_or(bytes@, fallback@),
{
    match string_from_utf8(bytes) {
        Some(s) => s,
        None => fallback.to_owned(),
    }
}

/// What a compile of the `stage` shader came to: the shader's handle if
/// `status` reports success, and else a [`BuildError::ShaderCompile`] whose
/// diagnostic is the info log.
pub fn compile_outcome(
    stage: ShaderStage,
    shader: u32,
    status: i32,
    log: Vec<u8>,
) -> (r: Result<u32, BuildError>)
    ensures
        status == STATUS_OK ==> r == Ok::<u32, BuildError>(shader),
        status != STATUS_OK ==> (r matches Err(BuildError::ShaderCompile { stage: s, log: text })
            && s == stage && text@ == log_or(log@, SHADER_LOG_NOT_UTF8@)),
{
    if succeeded(status) {
        Ok(shader)
    } else {
        Err(BuildError::ShaderCompile { stage, log: diagnostic_text(log, SHADER_LOG_NOT_UTF8) })
    }
}

/// What a link came to: the program's handle if `status` reports success,
/// and else a [`BuildError::ProgramLink`] whose diagnostic is the info log.
pub fn link_outcome(program: u32, status: i32, log: Vec<u8>) -> (r: Result<u32, BuildError>)
    ensures
        status == STATUS_OK ==> r == Ok::<u32, BuildError>(program),
        status != STATUS_OK ==> (r matches Err(BuildError::ProgramLink { log: text })
            && text@ == log_or(log@, PROGRAM_LOG_NOT_UTF8@)),
{
    if succeeded(status) {
        Ok(program)
    } else {
        Err(BuildError::ProgramLink { log: diagnostic_text(log, PROGRAM_LOG_NOT_UTF8) })
    }
}

/// A failed build never loses its diagnostic: if the driver wrote a log at
/// all, the diagnostic is not empty, whether or not the log is UTF-8.
pub proof fn law_diagnostic_not_empty(bytes: Seq<u8>)
    requires
        bytes.len() > 0,
    ensures
        log_or(bytes, SHADER_LOG_NOT_UTF8@).len() > 0,
        log_or(bytes, PROGRAM_LOG_NOT_UTF8@).len() > 0,
{
    reveal_strlit("ShaderInfoLog not valid utf8");
    reveal_strlit("ProgramInfoLog not valid utf8");
}

/// Whether a text can go to the driver as a NUL-terminated string: it holds
/// no NUL itself.
pub open spec fn no_nul(text: Seq<char>) -> bool {
    forall|i: int| 0 <= i < text.len() ==> text[i] != '\0'
}

/// Both shader sources and the three names can go to the driver as
/// NUL-terminated strings.
pub proof fn law_texts_hold_no_nul()
    ensures
        no_nul(VERTEX_SHADER_SOURCE@),
        no_nul(FRAGMENT_SHADER_SOURCE@),
        no_nul(POSITION_ATTRIBUTE@),
        no_nul(COLOR_ATTRIBUTE@),
        no_nul(FRAGMENT_OUTPUT@),
{
    reveal_strlit("
#version 150
in vec2 position;
in vec3 color;
out vec3 Color;

void main() {
    Color = color;
    gl_Position = vec4(position, 0.0, 1.0);
}");
    reveal_strlit("
#version 150
in vec3 Color;
out vec4 out_color;

void main() {
    out_color = vec4(Color, 1.0);
}");
    reveal_strlit("position");
    reveal_strlit("color");
    reveal_strlit("out_color");
}

} // verus!
